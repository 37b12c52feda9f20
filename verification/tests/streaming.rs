use fluxplayer::feeder::send_audio;
use fluxplayer::observer::progress_tenths;
use fluxplayer::player::{needs_resample, run_stream};
use fluxplayer::ring::SampleRing;
use fluxplayer::sample::scale_half;
use fluxplayer::sink::{audio_callback, should_complete, CallbackFlow};
use fluxplayer::status::PlayerStatus;
use fluxplayer::{BUFFER_SIZE, CHANNELS, FRAMES_PER_BUFFER, SAMPLE_RATE};

#[test]
fn status_new_starts_cleared() {
    let s = PlayerStatus::new();
    assert!(!s.is_decoding);
    assert!(!s.is_playing);
    assert_eq!(s.frames_decoded, 0);
    assert_eq!(s.frames_played, 0);
}

#[test]
fn constants_line_up() {
    assert_eq!(CHANNELS, 2);
    assert_eq!(SAMPLE_RATE, 48000);
    assert_eq!(BUFFER_SIZE, SAMPLE_RATE * CHANNELS);
    assert_eq!(BUFFER_SIZE % CHANNELS, 0);
    assert!(FRAMES_PER_BUFFER * CHANNELS <= BUFFER_SIZE);
}

#[test]
fn scale_half_matches_float_halving_on_picked_values() {
    let picked: [f32; 16] = [
        0.0,
        -0.0,
        1.0,
        -1.0,
        0.5,
        0.25,
        1.5,
        -3.75,
        0.1,
        -0.9999,
        f32::INFINITY,
        f32::NEG_INFINITY,
        f32::MIN_POSITIVE,
        f32::MAX,
        1.0e-40,
        -1.0e-42,
    ];
    for s in picked {
        assert_eq!(scale_half(s.to_bits()), (s * 0.5).to_bits(), "sample {s}");
    }
}

#[test]
fn scale_half_matches_float_halving_on_sweep() {
    // pseudo-random bit patterns, plus a dense walk through the subnormals
    // where the rounding ties live
    let mut b: u32 = 0x9E3779B9;
    for _ in 0..100_000 {
        b = b.wrapping_mul(1664525).wrapping_add(1013904223);
        let x = f32::from_bits(b);
        if x.is_nan() {
            continue;
        }
        assert_eq!(scale_half(b), (x * 0.5).to_bits(), "bits {b:#010x}");
    }
    for low in 0..=4096u32 {
        for sign in [0u32, 0x8000_0000] {
            let bits = sign | low;
            let x = f32::from_bits(bits);
            assert_eq!(scale_half(bits), (x * 0.5).to_bits(), "bits {bits:#010x}");
        }
    }
}

#[test]
fn ring_fifo_exactly_once_stress() {
    let mut ring = SampleRing::new(16);
    let mut next: u32 = 0;
    let mut written: Vec<u32> = Vec::new();
    let mut read: Vec<u32> = Vec::new();
    let mut seed: u64 = 0x243F_6A88_85A3_08D3;
    for _ in 0..4000 {
        seed = seed.wrapping_mul(6364136223846793005).wrapping_add(1442695040888963407);
        if (seed >> 33) % 2 == 0 {
            let len = ((seed >> 20) % 9) as usize;
            let mut chunk: Vec<u32> = Vec::new();
            for _ in 0..len {
                chunk.push(next);
                next = next.wrapping_add(1);
            }
            let n = ring.push_from(&chunk, 0);
            assert!(n <= chunk.len());
            for item in chunk.iter().take(n) {
                written.push(*item);
            }
        } else {
            let len = ((seed >> 17) % 11) as usize;
            let mut buf = vec![0u32; len];
            let n = ring.pop_into(&mut buf);
            assert!(n <= len);
            for item in buf.iter().take(n) {
                read.push(*item);
            }
        }
    }
    let mut buf = vec![0u32; 16];
    loop {
        let n = ring.pop_into(&mut buf);
        if n == 0 {
            break;
        }
        for item in buf.iter().take(n) {
            read.push(*item);
        }
    }
    assert!(ring.is_empty());
    assert_eq!(read, written);
}

#[test]
fn ring_pop_leaves_tail_of_buffer_alone() {
    let mut ring = SampleRing::new(8);
    let data = vec![7u32, 8, 9];
    assert_eq!(ring.push_from(&data, 0), 3);
    let mut buf = vec![100u32, 101, 102, 103, 104];
    assert_eq!(ring.pop_into(&mut buf), 3);
    assert_eq!(buf, vec![7, 8, 9, 103, 104]);
    assert!(ring.is_empty());
}

#[test]
fn send_audio_accounts_frames_exactly() {
    let mut ring = SampleRing::new(8);
    let mut status = PlayerStatus::new();
    let mut data: Vec<u32> = Vec::new();
    for i in 0..12u32 {
        data.push(i);
    }
    let sent = send_audio(&mut ring, &mut status, &data, 0);
    assert_eq!(sent, 8);
    assert_eq!(status.frames_decoded, 4);

    // the consumer frees four samples; the retry forwards the rest
    let mut buf = vec![0u32; 4];
    assert_eq!(ring.pop_into(&mut buf), 4);
    assert_eq!(buf, vec![0, 1, 2, 3]);

    let sent = send_audio(&mut ring, &mut status, &data, sent);
    assert_eq!(sent, 12);
    assert_eq!(status.frames_decoded, 6);

    let mut rest = vec![0u32; 8];
    assert_eq!(ring.pop_into(&mut rest), 8);
    assert_eq!(rest, vec![4, 5, 6, 7, 8, 9, 10, 11]);
}

#[test]
fn callback_applies_gain_once_and_fills_silence() {
    let mut ring = SampleRing::new(BUFFER_SIZE);
    let mut status = PlayerStatus::new();
    status.start_playing();
    status.mark_decoding();

    let reals: [f32; 6] = [1.0, -1.0, 0.5, -0.25, 0.125, 2.0];
    let mut data: Vec<u32> = Vec::new();
    for r in reals {
        data.push(r.to_bits());
    }
    assert_eq!(send_audio(&mut ring, &mut status, &data, 0), 6);

    let mut buffer = vec![0xDEAD_BEEFu32; 8];
    let flow = audio_callback(&mut ring, &mut status, &mut buffer, 4);
    assert_eq!(flow, CallbackFlow::Continue);
    assert_eq!(status.frames_played, 4);
    let expect: [f32; 6] = [0.5, -0.5, 0.25, -0.125, 0.0625, 1.0];
    for (i, e) in expect.iter().enumerate() {
        assert_eq!(buffer[i], e.to_bits(), "sample {i}");
    }
    // the underrun region is exact digital silence, not scaled garbage
    assert_eq!(buffer[6], 0);
    assert_eq!(buffer[7], 0);
}

#[test]
fn callback_counts_every_buffer_as_played() {
    let mut ring = SampleRing::new(64);
    let mut status = PlayerStatus::new();
    status.start_playing();
    status.mark_decoding();
    let data = vec![0u32; 64];
    assert_eq!(send_audio(&mut ring, &mut status, &data, 0), 64);

    let mut buffer = vec![0u32; 16];
    // no underrun: full buffer counted
    audio_callback(&mut ring, &mut status, &mut buffer, 8);
    assert_eq!(status.frames_played, 8);
    // underrun on an empty ring: still counted in full
    let mut big = vec![0u32; 128];
    audio_callback(&mut ring, &mut status, &mut big, 64);
    assert_eq!(status.frames_played, 72);
}

#[test]
fn callback_completes_exactly_when_nothing_is_left() {
    let mut ring = SampleRing::new(16);
    let mut status = PlayerStatus::new();
    status.start_playing();
    status.mark_decoding();
    let data = vec![1u32, 2];
    assert_eq!(send_audio(&mut ring, &mut status, &data, 0), 2);

    // decoding still on: never complete, even on an empty pop
    let mut buffer = vec![0u32; 4];
    assert_eq!(audio_callback(&mut ring, &mut status, &mut buffer, 2), CallbackFlow::Continue);
    assert!(status.is_playing);
    assert_eq!(audio_callback(&mut ring, &mut status, &mut buffer, 2), CallbackFlow::Continue);
    assert!(status.is_playing);

    // decoding over, but a final partial buffer is still queued: one call
    // early would truncate it
    assert_eq!(send_audio(&mut ring, &mut status, &data, 0), 2);
    status.finish_decoding();
    assert_eq!(audio_callback(&mut ring, &mut status, &mut buffer, 2), CallbackFlow::Continue);
    assert!(status.is_playing);

    // now the ring is empty and the pop returned nothing: terminal
    assert_eq!(audio_callback(&mut ring, &mut status, &mut buffer, 2), CallbackFlow::Complete);
    assert!(!status.is_playing);
}

#[test]
fn should_complete_requires_all_three() {
    assert!(should_complete(false, true, 0));
    assert!(!should_complete(true, true, 0));
    assert!(!should_complete(false, false, 0));
    assert!(!should_complete(false, true, 4));
    assert!(!should_complete(true, false, 8));
}

#[test]
fn run_stream_one_second_of_stereo() {
    let sample = 0.5f32.to_bits();
    let mut frames: Vec<Vec<u32>> = Vec::new();
    for _ in 0..48000 {
        frames.push(vec![sample, sample]);
    }
    let (status, out) = run_stream(&frames, BUFFER_SIZE, FRAMES_PER_BUFFER);
    assert_eq!(status.frames_decoded, 48000);
    assert!(status.frames_played >= 48000);
    assert!(!status.is_playing);
    assert!(!status.is_decoding);
    assert_eq!(status.frames_played * CHANNELS, out.len());
    assert_eq!(out.len() % (FRAMES_PER_BUFFER * CHANNELS), 0);
    let half = 0.25f32.to_bits();
    for (i, w) in out.iter().enumerate() {
        if i < 96000 {
            assert_eq!(*w, half, "sample {i}");
        } else {
            assert_eq!(*w, 0, "sample {i}");
        }
    }
}

#[test]
fn run_stream_empty_input_stops_at_once() {
    let frames: Vec<Vec<u32>> = Vec::new();
    let (status, out) = run_stream(&frames, BUFFER_SIZE, FRAMES_PER_BUFFER);
    assert_eq!(status.frames_decoded, 0);
    assert!(!status.is_playing);
    assert!(!status.is_decoding);
    // the single completing callback still counts one buffer of silence
    assert_eq!(status.frames_played, FRAMES_PER_BUFFER);
    assert_eq!(out.len(), FRAMES_PER_BUFFER * CHANNELS);
    for w in &out {
        assert_eq!(*w, 0);
    }
}

#[test]
fn run_stream_backpressure_loses_nothing() {
    // ring of 100 samples, consumer takes 50 per callback, producer offers
    // 1000 samples in one frame: it must retry until fully drained
    let mut frame: Vec<u32> = Vec::new();
    for i in 0..1000u32 {
        frame.push((i as f32).to_bits());
    }
    let frames = vec![frame];
    let (status, out) = run_stream(&frames, 100, 25);
    assert_eq!(status.frames_decoded, 500);
    assert!(!status.is_playing);
    assert_eq!(status.frames_played * CHANNELS, out.len());
    assert_eq!(out.len() % 50, 0);
    assert!(out.len() >= 1000);
    for (i, w) in out.iter().enumerate() {
        if i < 1000 {
            assert_eq!(*w, ((i as f32) * 0.5).to_bits(), "sample {i}");
        } else {
            assert_eq!(*w, 0, "sample {i}");
        }
    }
}

#[test]
fn progress_tenths_matches_display_arithmetic() {
    assert_eq!(progress_tenths(0), 0);
    assert_eq!(progress_tenths(24000), 5);
    assert_eq!(progress_tenths(48000), 10);
    assert_eq!(progress_tenths(72000), 15);
    assert_eq!(progress_tenths(4800), 1);
    assert_eq!(progress_tenths(4799), 0);
}

#[test]
fn needs_resample_only_when_format_differs() {
    assert!(!needs_resample(true, true, 48000));
    assert!(needs_resample(false, true, 48000));
    assert!(needs_resample(true, false, 48000));
    assert!(needs_resample(true, true, 44100));
}
