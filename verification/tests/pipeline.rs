use particle_sim::pipeline::{
    compute_bind_layout, render_bind_layout, BufferAccess, BufferRole, StageVisibility,
};

#[test]
fn compute_layout_exposes_four_compute_visible_slots() {
    let slots = compute_bind_layout();
    assert_eq!(slots.len(), 4);
    for s in &slots {
        assert_eq!(s.visibility, StageVisibility::Compute);
    }
    assert_eq!(slots[0].binding, 0);
    assert_eq!(slots[0].role, BufferRole::Time);
    assert_eq!(slots[0].access, BufferAccess::Uniform);
    assert_eq!(slots[1].binding, 1);
    assert_eq!(slots[1].role, BufferRole::Particles);
    assert_eq!(slots[1].access, BufferAccess::Storage { read_only: false });
    assert_eq!(slots[2].binding, 2);
    assert_eq!(slots[2].role, BufferRole::Mouse);
    assert_eq!(slots[2].access, BufferAccess::Uniform);
    assert_eq!(slots[3].binding, 3);
    assert_eq!(slots[3].role, BufferRole::Command);
    assert_eq!(slots[3].access, BufferAccess::Uniform);
}

#[test]
fn render_layout_reads_particles_read_only() {
    let slots = render_bind_layout();
    assert_eq!(slots.len(), 2);
    for s in &slots {
        assert_eq!(s.visibility, StageVisibility::Vertex);
        assert_ne!(s.access, BufferAccess::Storage { read_only: false });
    }
    assert_eq!(slots[0].binding, 1);
    assert_eq!(slots[0].role, BufferRole::Particles);
    assert_eq!(slots[0].access, BufferAccess::Storage { read_only: true });
    assert_eq!(slots[1].binding, 2);
    assert_eq!(slots[1].role, BufferRole::Resolution);
    assert_eq!(slots[1].access, BufferAccess::Uniform);
}
