use rust_core::midi::detect_pitch;
use rust_core::midi::extract_midi;
use rust_core::midi::MidiFile;
use rust_core::midi::MidiNote;

#[test]
fn a_new_midi_file_has_no_notes() {
    let file = MidiFile::new();
    assert!(file.notes.is_empty());
    assert_eq!(file.tempo, 120);
    assert_eq!(file.time_signature, (4, 4));
}

#[test]
fn a_midi_file_holds_the_notes_it_is_given() {
    let mut file = MidiFile::new();
    file.notes.push(MidiNote {
        note: 69,
        velocity: 100,
        start_time: 0.5f64.to_bits(),
        end_time: 1.25f64.to_bits(),
    });
    assert_eq!(file.notes.len(), 1);
    assert_eq!(file.notes[0].note, 69);
    assert_eq!(f64::from_bits(file.notes[0].end_time), 1.25);
    assert_eq!(file.save("out.mid"), Ok(()));
}

#[test]
fn no_notes_are_extracted_from_any_audio() {
    let audio: Vec<u32> = [0.1f32, -0.3, 0.7].iter().map(|s| s.to_bits()).collect();
    match extract_midi(&audio, 44100) {
        Ok(file) => {
            assert!(file.notes.is_empty());
            assert_eq!(file.tempo, 120);
            assert_eq!(file.time_signature, (4, 4));
        }
        Err(_) => panic!("extraction failed"),
    }
    assert!(extract_midi(&[], 8000).is_ok());
}

#[test]
fn no_pitch_is_detected_in_any_frame() {
    let frame: Vec<u32> = [0.5f32, -0.5, 0.5, -0.5].iter().map(|s| s.to_bits()).collect();
    assert_eq!(detect_pitch(&frame, 44100), None);
    assert_eq!(detect_pitch(&[], 44100), None);
}
