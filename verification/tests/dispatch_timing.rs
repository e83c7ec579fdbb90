use particle_sim::dispatch::{DispatchSize, INVOCATIONS_PER_SLICE, MAX_WORKGROUPS_PER_DIM};
use particle_sim::timing::{clamp_delta_nanos, MAX_DELTA_NANOS};

#[test]
fn dispatch_covers_small_count() {
    let d = DispatchSize::for_particles(100);
    assert_eq!(d.x, MAX_WORKGROUPS_PER_DIM);
    assert_eq!(d.y, 1);
    assert_eq!(d.z, 1);
    assert!(d.x as u64 * d.y as u64 * 256 >= 100);
}

#[test]
fn dispatch_covers_one_particle() {
    let d = DispatchSize::for_particles(1);
    assert_eq!((d.x, d.y, d.z), (65535, 1, 1));
}

#[test]
fn dispatch_second_dimension_grows_at_slice_boundary() {
    assert_eq!(DispatchSize::for_particles(INVOCATIONS_PER_SLICE).y, 1);
    assert_eq!(DispatchSize::for_particles(INVOCATIONS_PER_SLICE + 1).y, 2);
}

#[test]
fn dispatch_covers_largest_count() {
    let d = DispatchSize::for_particles(u32::MAX);
    assert_eq!(d.y, 257);
    assert!(d.x as u64 * d.y as u64 * 256 >= u32::MAX as u64);
    assert!(d.y <= MAX_WORKGROUPS_PER_DIM);
}

#[test]
fn zero_gap_still_gives_positive_delta() {
    let d = clamp_delta_nanos(0);
    assert!(d > 0 && d <= MAX_DELTA_NANOS);
}

#[test]
fn ordinary_gap_passes_through() {
    assert_eq!(clamp_delta_nanos(16_000_000), 16_000_000);
}

#[test]
fn multi_second_stall_is_capped_at_a_tenth_of_a_second() {
    assert_eq!(clamp_delta_nanos(5_000_000_000), 100_000_000);
    assert_eq!(clamp_delta_nanos(100_000_001), 100_000_000);
    assert_eq!(clamp_delta_nanos(100_000_000), 100_000_000);
}
