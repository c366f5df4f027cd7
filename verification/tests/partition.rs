use hypocaust::pmap::gpa2hpa;
use hypocaust::pmap::hpa2gpa;
use hypocaust::pmap::GUEST_SEGMENT_SIZE;

const S: usize = GUEST_SEGMENT_SIZE;

#[test]
fn guest_zero_starts_one_segment_up() {
    // Guest 0's segment starts at the segment size, not at 0: the first
    // segment is reserved.
    assert_eq!(gpa2hpa(0, 0), S);
}

#[test]
fn segment_size_is_128_mib() {
    assert_eq!(S, 128 * 1024 * 1024);
}

#[test]
fn gpa2hpa_offsets_into_the_guest_segment() {
    assert_eq!(gpa2hpa(0x1000, 0), S + 0x1000);
    assert_eq!(gpa2hpa(0x1000, 2), 3 * S + 0x1000);
    assert_eq!(gpa2hpa(S - 1, 5), 6 * S + S - 1);
}

#[test]
fn hpa2gpa_is_the_exact_inverse_subtraction() {
    assert_eq!(hpa2gpa(S + 0x1000, 0), 0x1000);
    assert_eq!(hpa2gpa(3 * S + 0x1000, 2), 0x1000);
    assert_eq!(hpa2gpa(S, 0), 0);
}

#[test]
fn round_trip_restores_the_guest_physical_address() {
    for &va in &[0usize, 1, 0x1000, 0xabc_def, S - 1] {
        for &guest_id in &[0usize, 1, 2, 7, 100] {
            assert_eq!(hpa2gpa(gpa2hpa(va, guest_id), guest_id), va);
        }
    }
}

#[test]
fn segments_of_distinct_guests_are_disjoint() {
    // The segment of guest g is [(g+1)*S, (g+2)*S).
    let ids = [0usize, 1, 2, 3, 10];
    for &g1 in &ids {
        for &g2 in &ids {
            if g1 != g2 {
                let (lo1, hi1) = ((g1 + 1) * S, (g1 + 2) * S);
                let (lo2, hi2) = ((g2 + 1) * S, (g2 + 2) * S);
                assert!(hi1 <= lo2 || hi2 <= lo1);
            }
        }
    }
}
