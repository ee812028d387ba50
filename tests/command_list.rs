use color_overlay::command_list::{div_round_up, CommandList, Phase, WaitStep};

#[test]
fn div_round_up_values() {
    assert_eq!(div_round_up(0, 8), 0);
    assert_eq!(div_round_up(1, 8), 1);
    assert_eq!(div_round_up(8, 8), 1);
    assert_eq!(div_round_up(9, 8), 2);
    assert_eq!(div_round_up(u32::MAX, 1), u32::MAX);
    assert_eq!(div_round_up(u32::MAX, 2), 2147483648);
}

#[test]
fn command_list_cycles_through_its_phases() {
    let mut list = CommandList::new();
    assert_eq!(list.phase(), Phase::Idle);
    list.reset();
    assert_eq!(list.phase(), Phase::Recording);
    list.execute();
    assert_eq!(list.phase(), Phase::Submitted);
    let v = list.signal();
    assert_eq!(v, 1);
    assert_eq!(list.phase(), Phase::Waiting(1));
}

#[test]
fn wait_blocks_until_fence_reached() {
    let mut list = CommandList::new();
    list.reset();
    list.execute();
    let v = list.signal();
    assert_eq!(list.observe(0), WaitStep::Block(v));
    assert_eq!(list.phase(), Phase::Waiting(v));
    assert_eq!(list.observe(v - 1), WaitStep::Block(v));
    assert_eq!(list.observe(v), WaitStep::Done);
    assert_eq!(list.phase(), Phase::Idle);
}

#[test]
fn wait_twice_without_submission() {
    let mut list = CommandList::new();
    list.reset();
    list.execute();
    let first = list.signal();
    assert_eq!(list.observe(first), WaitStep::Done);
    let second = list.signal();
    assert_eq!(second, first + 1);
    assert_eq!(list.observe(second), WaitStep::Done);
    assert_eq!(list.phase(), Phase::Idle);
    list.reset();
    assert_eq!(list.phase(), Phase::Recording);
}
