use spectrum_tui::error::{DecodeError, MarkerPosition};
use spectrum_tui::frame::DRSpectrum;
use spectrum_tui::header::{DRHeader, SatFraction, HEADER_LEN, SYNC_FOOTER, SYNC_HEADER};
use spectrum_tui::polarization::PolarizationType;

fn sample_header() -> DRHeader {
    DRHeader {
        time_tag: 0x0123_4567_89AB_CDEF,
        time_offset: 7,
        decimation_factor: 10,
        tuning_words: [0x1122_3344, 0x5566_7788],
        fills: [768, 768, 768, 768],
        errors: [0, 1, 2, 3],
        beam: 1,
        stokes_format: PolarizationType::LinearFull,
        specrometer_version: 2,
        flags: 0,
        n_freqs: 4,
        n_ints: 768,
        saturation_count: [90013, 312209, 69934, 283166],
    }
}

/// A synthetic frame: the header record followed by its declared
/// payload of little-endian sample words.
fn sample_frame_bytes(h: &DRHeader, seed: u32) -> Vec<u8> {
    let mut bytes = h.to_bytes();
    let pols = h.stokes_format.pol_count() as u32;
    let words = 2 * h.n_freqs * pols;
    for k in 0..words {
        let w: u32 = seed.wrapping_add(k).wrapping_mul(3);
        bytes.extend_from_slice(&w.to_le_bytes());
    }
    bytes
}

#[test]
fn header_round_trips_exactly() {
    let h = sample_header();
    let bytes = h.to_bytes();
    assert_eq!(bytes.len(), HEADER_LEN);
    let decoded = DRHeader::from_bytes(&bytes).expect("valid header must decode");
    assert_eq!(decoded, h);
    let re_encoded = decoded.to_bytes();
    assert_eq!(re_encoded, bytes);
}

#[test]
fn flipping_any_sync_byte_is_rejected() {
    let h = sample_header();
    let bytes = h.to_bytes();
    for &(start, position, expected) in &[
        (0usize, MarkerPosition::Leading, SYNC_HEADER),
        (72usize, MarkerPosition::Trailing, SYNC_FOOTER),
    ] {
        for i in 0..4 {
            let mut bad = bytes.clone();
            bad[start + i] ^= 0xFF;
            let actual = u32::from_le_bytes([bad[start], bad[start + 1], bad[start + 2], bad[start + 3]]);
            match DRHeader::from_bytes(&bad) {
                Err(DecodeError::BadSyncMarker { expected: e, actual: a, position: p }) => {
                    assert_eq!(e, expected);
                    assert_eq!(a, actual);
                    assert_eq!(p, position);
                }
                other => panic!("expected a sync-marker error, got {other:?}"),
            }
        }
    }
}

#[test]
fn truncated_input_is_rejected() {
    let h = sample_header();
    let bytes = h.to_bytes();
    assert_eq!(DRHeader::from_bytes(&bytes[..3]), Err(DecodeError::TruncatedInput));
    assert_eq!(DRHeader::from_bytes(&bytes[..75]), Err(DecodeError::TruncatedInput));
    assert_eq!(DRHeader::from_bytes(&[]), Err(DecodeError::TruncatedInput));
}

#[test]
fn unknown_polarization_is_rejected() {
    let h = sample_header();
    let mut bytes = h.to_bytes();
    bytes[45] = 0x03;
    assert_eq!(DRHeader::from_bytes(&bytes), Err(DecodeError::UnknownPolarization(0x03)));
}

#[test]
fn pol_count_is_the_population_count() {
    for v in 0..=255u8 {
        match PolarizationType::from_u8(v) {
            Some(p) => {
                assert_eq!(p.pol_count() as u32, v.count_ones());
                assert_eq!(p.as_u8(), v);
            }
            None => {
                // any byte outside the defined set fails decoding
                let h = sample_header();
                let mut bytes = h.to_bytes();
                bytes[45] = v;
                assert_eq!(DRHeader::from_bytes(&bytes), Err(DecodeError::UnknownPolarization(v)));
            }
        }
    }
}

#[test]
fn desription_labels_match_format() {
    assert_eq!(PolarizationType::LinearXX.desription(), vec!["XX"]);
    assert_eq!(
        PolarizationType::LinearFull.desription(),
        vec!["XX", "Re(XY)", "Im(XY)", "YY"]
    );
    assert_eq!(PolarizationType::StokesFull.desription(), vec!["I", "Q", "U", "V"]);
    assert_eq!(PolarizationType::StokesRealHalf.desription(), vec!["I", "V"]);
}

#[test]
fn frame_decode_reads_words_and_norms() {
    let mut h = sample_header();
    h.fills = [10, 20, 30, 40];
    let bytes = sample_frame_bytes(&h, 5);
    let frame = DRSpectrum::from_bytes(&bytes).expect("frame must decode");
    assert_eq!(frame.header, h);
    // 2 tunings x 4 bins x 4 products
    assert_eq!(frame.data.len(), 32);
    for (k, w) in frame.data.iter().enumerate() {
        assert_eq!(*w, 5u32.wrapping_add(k as u32).wrapping_mul(3));
    }
    // bases are fills * n_freqs = [40, 80, 120, 160]
    assert_eq!(frame.norms, vec![40, 40, 40, 80, 120, 120, 120, 160]);
}

#[test]
fn product_rows_flatten_tunings_side_by_side() {
    let h = sample_header();
    let bytes = sample_frame_bytes(&h, 0);
    let frame = DRSpectrum::from_bytes(&bytes).expect("frame must decode");
    let rows = frame.product_rows();
    assert_eq!(rows.len(), 4);
    for (p, row) in rows.iter().enumerate() {
        assert_eq!(row.len(), 8);
        for t in 0..2 {
            for f in 0..4 {
                let flat = t * 16 + f * 4 + p;
                assert_eq!(row[t * 4 + f], frame.data[flat]);
            }
        }
    }
}

#[test]
fn calc_saturation_follows_the_format_table() {
    let mut h = sample_header();
    h.saturation_count = [10, 20, 30, 40];
    h.n_ints = 2;
    h.n_freqs = 4;
    let den = 8u64;
    let sats = h.calc_saturation();
    let nums: Vec<u64> = sats.iter().map(|s| s.num).collect();
    assert_eq!(nums, vec![10, 20, 20, 20, 30, 40, 40, 40]);
    assert!(sats.iter().all(|s| s.den == den));

    h.stokes_format = PolarizationType::StokesFull;
    let nums: Vec<u64> = h.calc_saturation().iter().map(|s| s.num).collect();
    assert_eq!(nums, vec![20, 20, 20, 20, 40, 40, 40, 40]);

    h.stokes_format = PolarizationType::LinearXX;
    let nums: Vec<u64> = h.calc_saturation().iter().map(|s| s.num).collect();
    assert_eq!(nums, vec![10, 30]);
}

#[test]
fn saturation_fractions_stay_in_unit_range() {
    let mut h = sample_header();
    h.n_ints = 2;
    h.n_freqs = 4;
    h.saturation_count = [0, 8, 5, 3];
    for SatFraction { num, den } in h.calc_saturation() {
        assert!(den > 0);
        assert!(num <= den);
    }
}

#[test]
fn find_next_frame_returns_frame_boundaries() {
    let h = sample_header();
    let mut buf = sample_frame_bytes(&h, 5);
    let frame_len = buf.len();
    let mut second = sample_header();
    second.time_tag += 196_000_000;
    buf.extend_from_slice(&sample_frame_bytes(&second, 9));

    // repeated scans land on 0, frame_len, 2*frame_len, ...
    let mut cursor = 0usize;
    let mut positions = Vec::new();
    while let Ok(p) = DRSpectrum::find_next_spectra(&buf, cursor) {
        positions.push(p);
        cursor = p + frame_len;
    }
    assert_eq!(positions, vec![0, frame_len]);

    // a scan from inside the first frame finds the second boundary
    assert_eq!(DRSpectrum::find_next_spectra(&buf, 1), Ok(frame_len));
    assert_eq!(
        DRSpectrum::find_next_spectra(&buf, frame_len + 1),
        Err(DecodeError::NoMoreFrames)
    );
}

#[test]
fn empty_and_short_streams_hold_no_frames() {
    assert_eq!(DRSpectrum::find_next_spectra(&[], 0), Err(DecodeError::NoMoreFrames));
    assert_eq!(DRSpectrum::find_next_spectra(&[0xDE, 0xC0], 0), Err(DecodeError::NoMoreFrames));
    assert_eq!(DRSpectrum::read_last_spectrum(&[]), Err(DecodeError::NoMoreFrames));
}

#[test]
fn a_truncated_payload_is_rejected() {
    let h = sample_header();
    let bytes = sample_frame_bytes(&h, 5);
    // drop the last payload byte: the header is fine, the payload is short
    let short = &bytes[..bytes.len() - 1];
    assert_eq!(DRSpectrum::from_bytes(short), Err(DecodeError::TruncatedInput));
}

#[test]
fn two_concatenated_frames_decode_in_turn() {
    let first = sample_header();
    let mut second = sample_header();
    second.time_tag += 196_000_000;

    let mut buf = sample_frame_bytes(&first, 5);
    let frame_len = buf.len();
    buf.extend_from_slice(&sample_frame_bytes(&second, 9));

    let f1 = DRSpectrum::from_bytes(&buf).expect("first frame");
    let f2 = DRSpectrum::from_bytes_at(&buf, frame_len).expect("second frame");
    assert_eq!(f1.header, first);
    assert_eq!(f2.header, second);
    assert_ne!(f1, f2);

    // the cheap tail read recovers exactly the second frame
    let last = DRSpectrum::read_last_spectrum(&buf).expect("last frame");
    assert_eq!(last, f2);
}

#[test]
fn timestamp_ticks_subtract_the_offset() {
    let mut h = sample_header();
    h.time_tag = 1000;
    h.time_offset = 7;
    assert_eq!(h.timestamp_ticks(), Some(993));
    h.time_offset = 2000;
    assert_eq!(h.timestamp_ticks(), None);
}

#[test]
fn payload_length_matches_the_declared_shape() {
    let h = sample_header();
    // 2 tunings * 4 bins * 4 products * 4 bytes
    assert_eq!(h.len_bytes(), 128);
    let mut big = sample_header();
    big.n_freqs = 1024;
    assert_eq!(big.len_bytes(), 32768);
    assert_eq!(big.len_bytes() as usize + HEADER_LEN, 32844);
}
