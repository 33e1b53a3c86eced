use pipemux::epoll::{
    wait_step, EpollEvent, EpollInstance, PollState, WaitStep, EPOLLERR, EPOLLHUP, EPOLLIN,
    EPOLLOUT, EPOLL_CTL_ADD, EPOLL_CTL_DEL, EPOLL_CTL_MOD,
};
use pipemux::errno::Errno;

fn ev(events: u32, data: u64) -> EpollEvent {
    EpollEvent { events, data }
}

fn state(readable: bool, writable: bool, pollhup: bool) -> Option<PollState> {
    Some(PollState { readable, writable, pollhup })
}

#[test]
fn add_twice_on_same_id_is_eexist() {
    let mut ep = EpollInstance::new(0);
    assert_eq!(ep.control(EPOLL_CTL_ADD, 4, &ev(EPOLLIN, 100), true), Ok(0));
    assert_eq!(
        ep.control(EPOLL_CTL_ADD, 4, &ev(EPOLLIN, 100), true),
        Err(Errno::EEXIST)
    );
    assert_eq!(ep.len(), 1);
}

#[test]
fn del_on_never_added_id_is_enoent() {
    let mut ep = EpollInstance::new(0);
    assert_eq!(ep.control(EPOLL_CTL_DEL, 9, &ev(0, 0), true), Err(Errno::ENOENT));
}

#[test]
fn mod_on_absent_id_is_enoent() {
    let mut ep = EpollInstance::new(0);
    assert_eq!(ep.control(EPOLL_CTL_MOD, 9, &ev(EPOLLIN, 0), true), Err(Errno::ENOENT));
}

#[test]
fn del_then_add_again_succeeds() {
    let mut ep = EpollInstance::new(0);
    assert_eq!(ep.control(EPOLL_CTL_ADD, 4, &ev(EPOLLIN, 1), true), Ok(0));
    assert_eq!(ep.control(EPOLL_CTL_DEL, 4, &ev(0, 0), true), Ok(0));
    assert_eq!(ep.len(), 0);
    assert_eq!(ep.control(EPOLL_CTL_ADD, 4, &ev(EPOLLOUT, 2), true), Ok(0));
    assert_eq!(ep.len(), 1);
}

#[test]
fn unknown_op_is_einval() {
    let mut ep = EpollInstance::new(0);
    assert_eq!(ep.control(7, 4, &ev(EPOLLIN, 0), true), Err(Errno::EINVAL));
}

#[test]
fn dead_id_is_ebadf_for_every_op() {
    let mut ep = EpollInstance::new(0);
    assert_eq!(ep.control(EPOLL_CTL_ADD, 4, &ev(EPOLLIN, 0), false), Err(Errno::EBADF));
    assert_eq!(ep.control(EPOLL_CTL_MOD, 4, &ev(EPOLLIN, 0), false), Err(Errno::EBADF));
    assert_eq!(ep.control(EPOLL_CTL_DEL, 4, &ev(0, 0), false), Err(Errno::EBADF));
    assert_eq!(ep.len(), 0);
}

#[test]
fn mod_replaces_mask_and_token() {
    let mut ep = EpollInstance::new(0);
    assert_eq!(ep.control(EPOLL_CTL_ADD, 4, &ev(EPOLLIN, 1), true), Ok(0));
    assert_eq!(ep.control(EPOLL_CTL_MOD, 4, &ev(EPOLLOUT, 2), true), Ok(0));
    // The replaced interest is what a poll pass now reports.
    let polls = vec![state(true, true, false)];
    let got = ep.poll_all(&polls, 8).unwrap();
    assert_eq!(got, vec![ev(EPOLLOUT, 2)]);
}

#[test]
fn poll_reports_only_requested_conditions_that_hold() {
    let mut ep = EpollInstance::new(0);
    ep.control(EPOLL_CTL_ADD, 1, &ev(EPOLLIN, 11), true).unwrap();
    ep.control(EPOLL_CTL_ADD, 2, &ev(EPOLLIN | EPOLLOUT | EPOLLHUP, 22), true).unwrap();
    ep.control(EPOLL_CTL_ADD, 3, &ev(EPOLLOUT, 33), true).unwrap();
    let polls = vec![
        state(false, true, false),       // writable but only EPOLLIN requested
        state(true, true, true),         // everything requested and present
        state(false, true, false),       // writable, EPOLLOUT requested
    ];
    let got = ep.poll_all(&polls, 16).unwrap();
    assert_eq!(
        got,
        vec![ev(EPOLLIN, 22), ev(EPOLLOUT, 22), ev(EPOLLHUP, 22), ev(EPOLLOUT, 33)]
    );
}

#[test]
fn hangup_without_requested_hup_bit_is_not_reported() {
    let mut ep = EpollInstance::new(0);
    ep.control(EPOLL_CTL_ADD, 1, &ev(EPOLLIN, 11), true).unwrap();
    let polls = vec![state(false, false, true)];
    let got = ep.poll_all(&polls, 16).unwrap();
    assert_eq!(got, Vec::new());
}

#[test]
fn gone_resource_without_err_mask_surfaces_ebadf() {
    let mut ep = EpollInstance::new(0);
    ep.control(EPOLL_CTL_ADD, 1, &ev(EPOLLIN, 11), true).unwrap();
    ep.control(EPOLL_CTL_ADD, 2, &ev(EPOLLIN, 22), true).unwrap();
    let polls = vec![state(true, false, false), None];
    assert_eq!(ep.poll_all(&polls, 16), Err(Errno::EBADF));
}

#[test]
fn gone_resource_with_err_mask_becomes_an_error_record() {
    let mut ep = EpollInstance::new(0);
    ep.control(EPOLL_CTL_ADD, 1, &ev(EPOLLIN | EPOLLERR, 11), true).unwrap();
    let polls = vec![None];
    let got = ep.poll_all(&polls, 16).unwrap();
    assert_eq!(got, vec![ev(EPOLLERR, 11)]);
}

#[test]
fn poll_output_is_bounded_by_the_callers_capacity() {
    let mut ep = EpollInstance::new(0);
    ep.control(EPOLL_CTL_ADD, 1, &ev(EPOLLIN, 11), true).unwrap();
    ep.control(EPOLL_CTL_ADD, 2, &ev(EPOLLIN, 22), true).unwrap();
    ep.control(EPOLL_CTL_ADD, 3, &ev(EPOLLIN, 33), true).unwrap();
    let polls = vec![
        state(true, false, false),
        state(true, false, false),
        state(true, false, false),
    ];
    let got = ep.poll_all(&polls, 2).unwrap();
    assert_eq!(got, vec![ev(EPOLLIN, 11), ev(EPOLLIN, 22)]);
}

#[test]
fn watched_ids_come_in_set_order() {
    let mut ep = EpollInstance::new(0);
    ep.control(EPOLL_CTL_ADD, 5, &ev(EPOLLIN, 1), true).unwrap();
    ep.control(EPOLL_CTL_ADD, 3, &ev(EPOLLIN, 2), true).unwrap();
    ep.control(EPOLL_CTL_ADD, 8, &ev(EPOLLIN, 3), true).unwrap();
    assert_eq!(ep.watched_ids(), vec![5, 3, 8]);
}

#[test]
fn prune_drops_exactly_the_dead_entries() {
    let mut ep = EpollInstance::new(0);
    ep.control(EPOLL_CTL_ADD, 5, &ev(EPOLLIN, 1), true).unwrap();
    ep.control(EPOLL_CTL_ADD, 3, &ev(EPOLLIN, 2), true).unwrap();
    ep.control(EPOLL_CTL_ADD, 8, &ev(EPOLLIN, 3), true).unwrap();
    let live = vec![true, false, true];
    ep.prune_stale(&live);
    assert_eq!(ep.watched_ids(), vec![5, 8]);
    // The surviving entries still poll normally.
    let polls = vec![state(true, false, false), state(true, false, false)];
    let got = ep.poll_all(&polls, 8).unwrap();
    assert_eq!(got, vec![ev(EPOLLIN, 1), ev(EPOLLIN, 3)]);
}

#[test]
fn wait_delivers_ready_events_unchanged() {
    let found = vec![ev(EPOLLIN, 11), ev(EPOLLOUT, 22)];
    let r = wait_step(Ok(found.clone()), false);
    assert_eq!(r, WaitStep::Deliver(found));
}

#[test]
fn wait_with_expired_deadline_never_retries() {
    // A zero timeout makes the deadline pass before the first check: the
    // caller is never suspended, whatever the poll pass found.
    assert_eq!(wait_step(Ok(Vec::new()), true), WaitStep::TimedOut);
    let found = vec![ev(EPOLLIN, 11)];
    assert_eq!(wait_step(Ok(found.clone()), true), WaitStep::Deliver(found));
    assert_eq!(wait_step(Err(Errno::EBADF), true), WaitStep::CleanupStale);
}

#[test]
fn wait_retries_only_while_time_remains() {
    assert_eq!(wait_step(Ok(Vec::new()), false), WaitStep::Retry);
}

#[test]
fn wait_treats_a_gone_resource_as_cleanup_not_an_error() {
    assert_eq!(wait_step(Err(Errno::EBADF), false), WaitStep::CleanupStale);
}

#[test]
fn errno_codes_are_the_standard_values() {
    assert_eq!(Errno::EPERM.code(), 1);
    assert_eq!(Errno::ENOENT.code(), 2);
    assert_eq!(Errno::ENXIO.code(), 6);
    assert_eq!(Errno::EBADF.code(), 9);
    assert_eq!(Errno::EAGAIN.code(), 11);
    assert_eq!(Errno::EEXIST.code(), 17);
    assert_eq!(Errno::EINVAL.code(), 22);
    assert_eq!(Errno::EPIPE.code(), 32);
}
