use hypocaust::context::TrapContext;
use hypocaust::context::HSTATUS_SPV;
use hypocaust::context::SSTATUS_SPP;
use hypocaust::guest::Guest;
use hypocaust::guest::GUEST_START_VA;
use hypocaust::mm::MemorySet;
use hypocaust::page_table::FlatPageTable;
use hypocaust::pmap::translation_root;
use hypocaust::pmap::two_stage_translation;

fn blank_context() -> TrapContext {
    TrapContext {
        x: [0xdead; 32],
        sstatus: 0xdead,
        sepc: 0xdead,
        hgatp: 0xdead,
        kernel_sp: 0xdead,
        trap_handler: 0xdead,
        hstatus: 0xdead,
    }
}

#[test]
fn create_guest_primes_the_trap_context() {
    // A memory set whose token is T and which maps guest-physical 0x1000 to
    // host-virtual 0xffff_0000_1000.
    let t: usize = 0x0bad_cafe;
    let gpm = MemorySet {
        page_table: FlatPageTable { root: t, walks: vec![] },
        translations: vec![(0x1000, 0xffff_0000_1000)],
    };
    let mut ctx = blank_context();
    let guest = Guest::new(0, gpm, 0x9000_0000, 0x8000_1000, &mut ctx);

    assert_eq!(guest.guest_id, 0);
    assert_eq!(ctx.hgatp, t);
    assert_eq!(ctx.sepc, 0x8020_0000);
    assert_eq!(ctx.sepc, GUEST_START_VA);
    // Initial stack pointer zero: the guest's own setup establishes it.
    assert_eq!(ctx.x, [0; 32]);
    assert_eq!(ctx.kernel_sp, 0x9000_0000);
    assert_eq!(ctx.trap_handler, 0x8000_1000);
    assert_eq!(ctx.sstatus, SSTATUS_SPP);
    assert_eq!(ctx.hstatus, HSTATUS_SPV);

    // The guest keeps exclusive ownership of its memory set.
    assert_eq!(guest.gpm.translate_va(0x1000), Some(0xffff_0000_1000));
    assert_eq!(guest.gpm.token(), t);
}

#[test]
fn created_guest_serves_two_stage_translation() {
    // End to end: the guest's own tables map its entry address to
    // guest-physical 0x1000, and the second stage maps that to a host
    // virtual address.
    let vsatp: usize = 0x8000_0000_0000_0002;
    let root = translation_root(vsatp);
    assert_eq!(root, 0x2000);
    let gpm = MemorySet {
        page_table: FlatPageTable { root: 0x77, walks: vec![(0, root, GUEST_START_VA, 0x1000)] },
        translations: vec![(0x1000, 0xffff_0000_1000)],
    };
    let mut ctx = blank_context();
    let guest = Guest::new(0, gpm, 0x9000_0000, 0x8000_1000, &mut ctx);
    assert_eq!(
        two_stage_translation(guest.guest_id, GUEST_START_VA, vsatp, &guest.gpm),
        Some(0xffff_0000_1000),
    );
}
