//! Timers, and memory that is shared between processes.
use afterburner_wasi::daemon_sab::{
    shm_base, shm_path, wait_slice, wait_verdict, DaemonSab, WaitStart, Wake, ERR_BAD_ID,
    ERR_BAD_WIDTH, ERR_OUT_OF_BOUNDS, MAX_WOKEN, WAIT_NOT_EQUAL, WAIT_OK, WAIT_SLICE_NS,
    WAIT_TIMED_OUT,
};
use afterburner_wasi::host::Timers;

const MS: u64 = 1_000_000;

#[test]
fn due_timers_fire_once() {
    let mut timers = Timers::new();
    assert_eq!(timers.set(true, 10, 0, 0), 1);
    assert_eq!(timers.set(true, 20, 0, 0), 2);
    assert_eq!(timers.next_timer_deadline(), Some(10 * MS as u128));
    assert_eq!(timers.drain_expired_timers(9 * MS), Vec::<i32>::new());
    assert_eq!(timers.drain_expired_timers(10 * MS), vec![1]);
    assert_eq!(timers.drain_expired_timers(10 * MS), Vec::<i32>::new());
    assert_eq!(timers.drain_expired_timers(100 * MS), vec![2]);
    assert_eq!(timers.next_timer_deadline(), None);
}

#[test]
fn repeating_timer_is_set_anew() {
    let mut timers = Timers::new();
    assert_eq!(timers.set(true, 10, 1, 0), 1);
    assert_eq!(timers.drain_expired_timers(25 * MS), vec![1]);
    assert_eq!(timers.next_timer_deadline(), Some(35 * MS as u128));
    assert_eq!(timers.drain_expired_timers(34 * MS), Vec::<i32>::new());
    assert_eq!(timers.drain_expired_timers(35 * MS), vec![1]);
}

#[test]
fn all_due_timers_fire_whatever_their_place() {
    let mut timers = Timers::new();
    for _ in 0..5 {
        timers.set(true, 1, 0, 0);
    }
    let mut fired = timers.drain_expired_timers(MS);
    fired.sort();
    assert_eq!(fired, vec![1, 2, 3, 4, 5]);
}

#[test]
fn delay_is_at_least_a_millisecond() {
    let mut timers = Timers::new();
    timers.set(true, 0, 0, 5);
    timers.set(true, -7, 0, 5);
    assert_eq!(timers.next_timer_deadline(), Some(5 + MS as u128));
}

#[test]
fn timer_needs_a_daemon() {
    let mut timers = Timers::new();
    assert_eq!(timers.set(false, 10, 0, 0), -1);
    assert_eq!(timers.next_timer_deadline(), None);
    assert_eq!(timers.set(true, 10, 0, 0), 1);
}

#[test]
fn cleared_timer_never_fires() {
    let mut timers = Timers::new();
    timers.set(true, 10, 0, 0);
    timers.set(true, 10, 0, 0);
    timers.clear(1);
    timers.clear(9);
    assert_eq!(timers.drain_expired_timers(10 * MS), vec![2]);
}

#[test]
fn only_held_timers_keep_the_daemon_alive() {
    let mut timers = Timers::new();
    assert!(!timers.any_ref());
    timers.set(true, 10, 0, 0);
    assert!(timers.any_ref());
    timers.unref(1);
    assert!(!timers.any_ref());
    timers.hold(1);
    assert!(timers.any_ref());
    timers.clear(1);
    assert!(!timers.any_ref());
}

#[test]
fn regions_have_ids_and_names() {
    let mut sab = DaemonSab::new();
    assert_eq!(sab.alloc_region(0), Some(ERR_BAD_WIDTH as i64));
    assert_eq!(sab.alloc_region(8), None);
    assert_eq!(sab.add_region(8, "/dev/shm/a".into()), 1);
    assert_eq!(sab.add_region(16, "/dev/shm/b".into()), 2);
    assert_eq!(sab.descriptor(2), "/dev/shm/b");
    assert_eq!(sab.descriptor(3), "");
    assert_eq!(sab.byte_length(2), 16);
    assert_eq!(sab.byte_length(3), ERR_BAD_ID as i64);
    assert_eq!(sab.release(1), 0);
    assert_eq!(sab.release(1), ERR_BAD_ID);
    assert_eq!(sab.byte_length(2), 16);
}

#[test]
fn region_gives_back_what_was_written() {
    let mut sab = DaemonSab::new();
    let id = sab.add_region(8, "r".into());
    let mut memory = [0u8; 8];
    assert_eq!(sab.write(id, &mut memory, 3, &[1, 2, 3]), 0);
    assert_eq!(sab.read(id, &memory, 3, 3), Ok(vec![1, 2, 3]));
    assert_eq!(sab.read(id, &memory, 0, 8), Ok(vec![0, 0, 0, 1, 2, 3, 0, 0]));
    assert_eq!(sab.write(id, &mut memory, 6, &[9, 9, 9]), ERR_OUT_OF_BOUNDS);
    assert_eq!(sab.read(id, &memory, 6, 3), Err(ERR_OUT_OF_BOUNDS));
    assert_eq!(sab.read(id, &memory, usize::MAX, 2), Err(ERR_OUT_OF_BOUNDS));
    assert_eq!(sab.read(7, &[], 0, 0), Err(ERR_BAD_ID));
    assert_eq!(sab.write(7, &mut [], 0, &[]), ERR_BAD_ID);
    assert_eq!(memory, [0, 0, 0, 1, 2, 3, 0, 0]);
}

#[test]
fn atomic_accesses_have_their_widths() {
    let mut sab = DaemonSab::new();
    let id = sab.add_region(8, "r".into());
    for width in [1, 2, 4, 8] {
        assert_eq!(sab.atomic_load(id, 0, width), 0);
    }
    assert_eq!(sab.atomic_load(id, 0, 3), ERR_BAD_WIDTH);
    assert_eq!(sab.atomic_store(id, 4, 4), 0);
    assert_eq!(sab.atomic_store(id, 0, 2), ERR_BAD_WIDTH);
    assert_eq!(sab.atomic_cas(id, 0, 8), 0);
    assert_eq!(sab.atomic_cas(id, 4, 8), ERR_OUT_OF_BOUNDS);
    assert_eq!(sab.atomic_cas(5, 0, 8), ERR_BAD_ID);
}

#[test]
fn waits_begin_where_the_value_is_the_expected_one() {
    let mut sab = DaemonSab::new();
    let id = sab.add_region(8, "r".into());
    assert_eq!(sab.wait(id, 0, 1, 2, 50), WaitStart::Answer(WAIT_NOT_EQUAL));
    assert_eq!(sab.wait(id, 0, 2, 2, 50), WaitStart::Poll(50));
    assert_eq!(sab.wait(id, 0, 2, 2, -1), WaitStart::Park);
    assert_eq!(sab.wait(id, 0, u32::MAX, -1, 0), WaitStart::Poll(0));
    assert_eq!(sab.wait(id, 5, 2, 2, 50), WaitStart::Answer(ERR_OUT_OF_BOUNDS));
    assert_eq!(sab.wait(9, 0, 2, 2, 50), WaitStart::Answer(ERR_BAD_ID));
    assert_eq!(wait_slice(0), None);
    assert_eq!(wait_slice(7), Some(7));
    assert_eq!(wait_slice(5 * WAIT_SLICE_NS), Some(1_000_000));
    assert_eq!(wait_verdict(false, 2, 2), None);
    assert_eq!(wait_verdict(true, 2, 2), Some(WAIT_TIMED_OUT));
    assert_eq!(wait_verdict(true, 3, 2), Some(WAIT_OK));
}

#[test]
fn notifications_report_what_they_can() {
    let mut sab = DaemonSab::new();
    let id = sab.add_region(8, "r".into());
    assert_eq!(sab.notify(id, 0, 1), Ok((Wake::One, 1)));
    assert_eq!(sab.notify(id, 0, 5), Ok((Wake::All, 5)));
    assert_eq!(sab.notify(id, 0, -1), Ok((Wake::All, MAX_WOKEN)));
    assert_eq!(sab.notify(id, 0, 1 << 40), Ok((Wake::All, 1 << 30)));
    assert_eq!(sab.notify(id, 8, 1), Err(ERR_OUT_OF_BOUNDS));
    assert_eq!(sab.notify(9, 0, 1), Err(ERR_BAD_ID));
}

#[test]
fn region_files_have_unique_paths() {
    assert_eq!(shm_base(true, Some("/var/tmp".into())), "/dev/shm");
    assert_eq!(shm_base(false, Some("/var/tmp".into())), "/var/tmp");
    assert_eq!(shm_base(false, Some(String::new())), "/tmp");
    assert_eq!(shm_base(false, None), "/tmp");
    assert_eq!(shm_path("/tmp", 42, 7, 3), "/tmp/burn-sab-42-7-3");
}

#[test]
fn files_that_were_made_here_are_removed_in_the_end() {
    let mut sab = DaemonSab::new();
    let made = sab.add_made(8, "/dev/shm/a".into());
    sab.add_region(8, "/dev/shm/b".into());
    assert_eq!(sab.add_made(8, "/dev/shm/c".into()), 3);
    assert_eq!(sab.release(made), 0);
    assert_eq!(sab.leftovers(), &vec!["/dev/shm/a".to_string(), "/dev/shm/c".to_string()]);
}

#[test]
fn atomic_accesses_lie_on_multiples_of_their_width() {
    let mut sab = DaemonSab::new();
    let id = sab.add_made(16, "r".into());
    assert_eq!(sab.check_place(id, 8, 8), 0);
    assert_eq!(sab.check_place(id, 4, 8), ERR_OUT_OF_BOUNDS);
    assert_eq!(sab.check_place(id, 3, 1), 0);
    assert_eq!(sab.check_place(id, 16, 4), ERR_OUT_OF_BOUNDS);
    assert_eq!(sab.check_place(9, 0, 4), ERR_BAD_ID);
}
