use rust_core::dsp::apply_filter;
use rust_core::dsp::separate_stems as engine_separate;
use rust_core::dsp::SeparatedStems;
use rust_core::error_channel::ErrorChannel;
use rust_core::owned_buffer::alloc_buffers;
use rust_core::owned_buffer::free_stem_memory;
use rust_core::owned_buffer::stem_label;
use rust_core::owned_buffer::OwnedBuffer;
use rust_core::owned_buffer::STEM_COUNT;
use rust_core::separate_stems;
use rust_core::status::StatusCode;

fn average(a: u32, b: u32) -> u32 {
    ((f32::from_bits(a) + f32::from_bits(b)) / 2.0).to_bits()
}

fn bits(samples: &[f32]) -> Vec<u32> {
    samples.iter().map(|s| s.to_bits()).collect()
}

fn floats(buffer: &OwnedBuffer) -> Vec<f32> {
    buffer.as_slice().iter().map(|b| f32::from_bits(*b)).collect()
}

#[test]
fn stereo_is_averaged_frame_by_frame() {
    let audio = bits(&[1.0, 3.0, -2.0, 2.0, 0.5, 0.25]);
    let stems = engine_separate(&audio, 2, 48000, average).unwrap();
    assert_eq!(stems.sample_rate, 48000);
    let buffers = alloc_buffers(&stems, 4).unwrap();
    assert_eq!(buffers.len(), 4);
    for buffer in &buffers {
        assert_eq!(floats(buffer), vec![2.0, 0.0, 0.375]);
    }
}

#[test]
fn stereo_drops_a_trailing_sample_without_partner() {
    let audio = bits(&[1.0, 3.0, 9.0]);
    let stems = engine_separate(&audio, 2, 44100, average).unwrap();
    let buffers = alloc_buffers(&stems, 4).unwrap();
    assert_eq!(floats(&buffers[0]), vec![2.0]);
}

#[test]
fn mono_is_taken_as_it_is() {
    let audio = bits(&[0.1, -0.2, 0.3]);
    let stems = engine_separate(&audio, 1, 22050, average).unwrap();
    assert_eq!(stems.sample_rate, 22050);
    let buffers = alloc_buffers(&stems, 4).unwrap();
    for buffer in &buffers {
        assert_eq!(buffer.as_slice(), &audio[..]);
    }
}

#[test]
fn mono_of_length_zero_gives_empty_stems() {
    let stems = engine_separate(&[], 1, 44100, average).unwrap();
    let buffers = alloc_buffers(&stems, 4).unwrap();
    assert_eq!(buffers.len(), 4);
    for buffer in &buffers {
        assert_eq!(buffer.len(), 0);
    }
}

#[test]
fn other_channel_counts_are_refused_by_name() {
    let audio = bits(&[0.0; 6]);
    match engine_separate(&audio, 3, 44100, average) {
        Err(reason) => assert_eq!(
            reason,
            "Unsupported number of channels: 3. Only mono (1) and stereo (2) are supported."
        ),
        Ok(_) => panic!("three channels were accepted"),
    }
    match engine_separate(&audio, 0, 44100, average) {
        Err(reason) => assert_eq!(
            reason,
            "Unsupported number of channels: 0. Only mono (1) and stereo (2) are supported."
        ),
        Ok(_) => panic!("no channels were accepted"),
    }
}

#[test]
fn new_stems_are_empty() {
    let stems = SeparatedStems::new(96000);
    assert_eq!(stems.sample_rate, 96000);
    let buffers = alloc_buffers(&stems, 4).unwrap();
    for buffer in &buffers {
        assert_eq!(buffer.len(), 0);
    }
}

#[test]
fn buffers_are_copies_of_their_own() {
    let audio = bits(&[1.0, 2.0]);
    let stems = engine_separate(&audio, 1, 44100, average).unwrap();
    let first = alloc_buffers(&stems, 4).unwrap();
    let second = alloc_buffers(&stems, 4).unwrap();
    let mut taken = first.into_iter().next().unwrap().into_vec();
    taken[0] = 0;
    assert_eq!(second[0].as_slice(), &audio[..]);
}

#[test]
fn any_other_buffer_count_is_invalid_input() {
    let stems = SeparatedStems::new(44100);
    for count in [0usize, 1, 3, 5, usize::MAX] {
        match alloc_buffers(&stems, count) {
            Err(status) => assert_eq!(status, StatusCode::InvalidInput),
            Ok(_) => panic!("a wrong count was accepted"),
        }
    }
}

#[test]
fn slots_are_named_in_protocol_order() {
    assert_eq!(STEM_COUNT, 4);
    assert_eq!(stem_label(0), Some("vocals"));
    assert_eq!(stem_label(1), Some("drums"));
    assert_eq!(stem_label(2), Some("bass"));
    assert_eq!(stem_label(3), Some("other"));
    assert_eq!(stem_label(4), None);
}

#[test]
fn the_filter_returns_its_input() {
    let audio = bits(&[0.5, -0.5, 0.25]);
    assert_eq!(apply_filter(&audio, &bits(&[1.0, 0.0])), audio);
    assert_eq!(apply_filter(&[], &[]), Vec::<u32>::new());
}

#[test]
fn four_stems_of_half_the_input_length_are_handed_over() {
    let mut errors = ErrorChannel::new();
    let audio = bits(&[1.0, 3.0, -2.0, 2.0, 0.5, 0.25, 7.0]);
    let transfer = separate_stems(&mut errors, Some(&audio), true, true, 4, average);
    assert_eq!(transfer.status, StatusCode::Success);
    assert_eq!(transfer.buffers.len(), 4);
    assert_eq!(transfer.lengths, vec![3, 3, 3, 3]);
    for buffer in &transfer.buffers {
        assert_eq!(floats(buffer), vec![2.0, 0.0, 0.375]);
    }
    assert!(!errors.has_error());
}

#[test]
fn every_buffer_is_released_with_its_reported_length() {
    let mut errors = ErrorChannel::new();
    let audio = bits(&[0.0; 10]);
    let transfer = separate_stems(&mut errors, Some(&audio), true, true, 4, average);
    let lengths = transfer.lengths;
    for (buffer, length) in transfer.buffers.into_iter().zip(lengths) {
        assert_eq!(buffer.len(), length);
        free_stem_memory(Some(buffer), length);
    }
    free_stem_memory(None, 0);
}

#[test]
fn input_of_length_zero_gives_four_empty_stems() {
    let mut errors = ErrorChannel::new();
    let transfer = separate_stems(&mut errors, Some(&[]), true, true, 4, average);
    assert_eq!(transfer.status, StatusCode::Success);
    assert_eq!(transfer.lengths, vec![0, 0, 0, 0]);
    assert_eq!(transfer.buffers.len(), 4);
    for buffer in &transfer.buffers {
        assert_eq!(buffer.len(), 0);
    }
}

#[test]
fn a_wrong_stem_count_allocates_nothing() {
    for count in [0usize, 1, 2, 3, 5, 400] {
        let mut errors = ErrorChannel::new();
        let audio = bits(&[0.0; 8]);
        let transfer = separate_stems(&mut errors, Some(&audio), true, true, count, average);
        assert_eq!(transfer.status, StatusCode::InvalidInput);
        assert!(transfer.buffers.is_empty());
        assert!(transfer.lengths.is_empty());
        assert_eq!(
            errors.take_error().as_bytes(),
            format!("Expected num_stems to be 4, but got {}.", count).as_bytes()
        );
    }
}

#[test]
fn an_absent_input_is_invalid_input() {
    let mut errors = ErrorChannel::new();
    let transfer = separate_stems(&mut errors, None, true, true, 4, average);
    assert_eq!(transfer.status, StatusCode::InvalidInput);
    assert!(transfer.buffers.is_empty());
    assert_eq!(errors.take_error().as_bytes(), b"Input buffer was null.");
}

#[test]
fn absent_output_slots_are_invalid_input() {
    let mut errors = ErrorChannel::new();
    let audio = bits(&[0.0; 8]);
    let transfer = separate_stems(&mut errors, Some(&audio), false, true, 4, average);
    assert_eq!(transfer.status, StatusCode::InvalidInput);
    assert!(transfer.buffers.is_empty());
    assert_eq!(
        errors.take_error().as_bytes(),
        b"Output buffers pointer was null."
    );
    let transfer = separate_stems(&mut errors, Some(&audio), true, false, 4, average);
    assert_eq!(transfer.status, StatusCode::InvalidInput);
    assert!(transfer.buffers.is_empty());
    assert_eq!(
        errors.take_error().as_bytes(),
        b"Output lengths pointer was null."
    );
}

#[test]
fn the_first_failed_check_is_the_one_reported() {
    let mut errors = ErrorChannel::new();
    let transfer = separate_stems(&mut errors, None, false, false, 7, average);
    assert_eq!(transfer.status, StatusCode::InvalidInput);
    assert_eq!(errors.take_error().as_bytes(), b"Input buffer was null.");
}

#[test]
fn an_engine_that_refuses_is_a_processing_failure() {
    let mut errors = ErrorChannel::new();
    let refused = engine_separate(&[], 6, 44100, average);
    let transfer = rust_core::package_stems(&mut errors, refused, 4);
    assert_eq!(transfer.status, StatusCode::ProcessingFailed);
    assert!(transfer.buffers.is_empty());
    assert!(transfer.lengths.is_empty());
    assert_eq!(
        errors.take_error().as_bytes(),
        &b"Failed to separate stems: Unsupported number of channels: 6. Only mono (1) and stereo (2) are supported."[..]
    );
}

#[test]
fn packaging_hands_over_each_stem_with_its_length() {
    let mut errors = ErrorChannel::new();
    let audio = bits(&[0.25, 0.5, 0.75]);
    let separated = engine_separate(&audio, 1, 44100, average);
    let transfer = rust_core::package_stems(&mut errors, separated, 4);
    assert_eq!(transfer.status, StatusCode::Success);
    assert_eq!(transfer.lengths, vec![3, 3, 3, 3]);
    for buffer in &transfer.buffers {
        assert_eq!(buffer.as_slice(), &audio[..]);
    }
    assert!(!errors.has_error());
}

#[test]
fn packaging_for_a_wrong_stem_count_hands_over_nothing() {
    let mut errors = ErrorChannel::new();
    let separated = engine_separate(&bits(&[0.0; 4]), 2, 44100, average);
    let transfer = rust_core::package_stems(&mut errors, separated, 2);
    assert_eq!(transfer.status, StatusCode::InvalidInput);
    assert!(transfer.buffers.is_empty());
    assert_eq!(
        errors.take_error().as_bytes(),
        b"Expected num_stems to be 4, but got 2."
    );
}

#[test]
fn the_spectrogram_is_a_square_of_zeros() {
    let audio = bits(&[0.5, -0.5, 0.25, 0.75]);
    let rows = rust_core::dsp::compute_stft(&audio, 1024, 256).to_rows();
    assert_eq!(rows.len(), 100);
    for row in &rows {
        assert_eq!(row.len(), 100);
        assert!(row.iter().all(|cell| f32::from_bits(*cell) == 0.0));
    }
    assert_eq!(rust_core::dsp::compute_stft(&[], 0, 0).to_rows().len(), 100);
}
