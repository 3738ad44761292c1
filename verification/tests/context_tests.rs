use memory_addr::{PhysAddr, VirtAddr};
use scheduler::context::{CalleeSaved, TaskContext};

fn pattern(seed: usize) -> CalleeSaved {
    CalleeSaved {
        ra: seed,
        sp: seed + 1,
        s0: seed + 2,
        s1: seed + 3,
        s2: seed + 4,
        s3: seed + 5,
        s4: seed + 6,
        s5: seed + 7,
        s6: seed + 8,
        s7: seed + 9,
        s8: seed + 10,
        s9: seed + 11,
        s10: seed + 12,
        s11: seed + 13,
    }
}

#[test]
fn context_new_is_blank() {
    let ctx = TaskContext::new();
    assert_eq!(ctx.registers(), pattern(0).clone_zeroed());
    assert_eq!(ctx.tp, 0);
    assert_eq!(ctx.satp, PhysAddr::from_usize(0));
    let ctx = TaskContext::default();
    assert_eq!(ctx.ra, 0);
    assert_eq!(ctx.sp, 0);
    assert_eq!(ctx.satp.as_usize(), 0);
}

trait Zeroed {
    fn clone_zeroed(&self) -> CalleeSaved;
}

impl Zeroed for CalleeSaved {
    fn clone_zeroed(&self) -> CalleeSaved {
        CalleeSaved {
            ra: 0,
            sp: 0,
            s0: 0,
            s1: 0,
            s2: 0,
            s3: 0,
            s4: 0,
            s5: 0,
            s6: 0,
            s7: 0,
            s8: 0,
            s9: 0,
            s10: 0,
            s11: 0,
        }
    }
}

#[test]
fn context_init_sets_entry_and_stack() {
    let mut ctx = TaskContext::new();
    ctx.s3 = 33;
    ctx.tp = 5;
    ctx.init(0x8020_0000, VirtAddr::from_usize(0x8100_0000));
    assert_eq!(ctx.ra, 0x8020_0000);
    assert_eq!(ctx.sp, 0x8100_0000);
    assert_eq!(ctx.s3, 33);
    assert_eq!(ctx.s0, 0);
    assert_eq!(ctx.tp, 5);
    assert_eq!(ctx.satp.as_usize(), 0);
}

#[test]
fn context_set_tls_records_the_area() {
    let mut ctx = TaskContext::new();
    ctx.init(1, VirtAddr::from_usize(2));
    ctx.set_tls(VirtAddr::from_usize(0xdead_0000));
    assert_eq!(ctx.tp, 0xdead_0000);
    assert_eq!(ctx.ra, 1);
    assert_eq!(ctx.sp, 2);
}

#[test]
fn context_switch_saves_and_loads() {
    let mut a = TaskContext::new();
    let mut b = TaskContext::new();
    b.init(0x4000, VirtAddr::from_usize(0x9000));
    b.s5 = 55;
    a.tp = 11;
    let mut cpu = pattern(100);
    a.switch_to(&b, &mut cpu);
    assert_eq!(a.registers(), pattern(100));
    assert_eq!(a.tp, 11);
    assert_eq!(cpu, b.registers());
    assert_eq!(cpu.ra, 0x4000);
    assert_eq!(cpu.sp, 0x9000);
    assert_eq!(cpu.s5, 55);
}

#[test]
fn context_switch_round_trip() {
    let mut a = TaskContext::new();
    let mut b = TaskContext::new();
    b.init(0x4000, VirtAddr::from_usize(0x9000));
    let scratch = pattern(0xabc0);
    let mut cpu = scratch;
    a.switch_to(&b, &mut cpu);
    cpu = pattern(0x7700);
    b.switch_to(&a, &mut cpu);
    assert_eq!(cpu, scratch);
    assert_eq!(b.registers(), pattern(0x7700));
}
