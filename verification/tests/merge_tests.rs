use rsh::and_select::AndSelect;
use rsh::and_select::FirstOutcome;
use rsh::and_select::SourcePoll;
use rsh::and_select::merge_scripts;
use rsh::and_select::new;

fn ready(items: &[u64]) -> Vec<SourcePoll<u64>> {
    items.iter().map(|i| SourcePoll::Ready(*i)).collect()
}

#[test]
fn merge_ends_when_first_source_ends() {
    // Source one yields three items then ends; source two always has an
    // item ready.  The merge interleaves one-for-one, ends the moment
    // source one does, and source two is never read past the third item.
    let s1 = ready(&[1, 2, 3]);
    let s2 = ready(&[10, 11, 12, 13, 14]);
    let out = merge_scripts(&s1, &s2);
    let expect = vec![
        (false, 1u64),
        (true, 10),
        (false, 2),
        (true, 11),
        (false, 3),
        (true, 12),
    ];
    assert_eq!(out, expect);
}

#[test]
fn merge_alternates_origins_when_both_ready() {
    let s1 = ready(&[1, 2, 3, 4]);
    let s2 = ready(&[10, 11, 12, 13]);
    let out = merge_scripts(&s1, &s2);
    assert_eq!(out.len(), 8);
    for (i, (origin, _)) in out.iter().enumerate() {
        assert_eq!(*origin, i % 2 == 1);
    }
}

#[test]
fn explicit_end_stops_the_merge_at_once() {
    let s1 = vec![SourcePoll::Ready(1u64), SourcePoll::End, SourcePoll::Ready(9)];
    let s2 = ready(&[10, 11, 12]);
    let out = merge_scripts(&s1, &s2);
    assert_eq!(out, vec![(false, 1u64), (true, 10)]);
}

#[test]
fn pending_favored_source_defers_without_flipping() {
    let mut sel: AndSelect = new();
    assert_eq!(sel.favored(), false);
    match sel.on_first::<u64>(SourcePoll::Pending) {
        FirstOutcome::TryOther => {}
        _ => panic!("pending favored source must defer"),
    }
    // Favor did not flip: source one is still polled first.
    assert_eq!(sel.favored(), false);
    match sel.on_first(SourcePoll::Ready(7u64)) {
        FirstOutcome::Emit(v) => assert_eq!(v, 7),
        _ => panic!("a ready item must be emitted"),
    }
    // An emitted item flips favor to source two.
    assert_eq!(sel.favored(), true);
    match sel.on_first::<u64>(SourcePoll::End) {
        FirstOutcome::End => {}
        _ => panic!("an ended source must end the merge"),
    }
}

#[test]
fn pending_rounds_are_skipped() {
    let s1 = vec![
        SourcePoll::Pending,
        SourcePoll::Ready(1u64),
        SourcePoll::Ready(2),
    ];
    let s2 = vec![SourcePoll::Pending, SourcePoll::Pending, SourcePoll::Ready(10u64)];
    let out = merge_scripts(&s1, &s2);
    // Round one: both pending.  Round two: source one yields 1 and favor
    // flips.  Round three: source two is favored but pending, so source
    // one's 2 is taken as-is and favor stays with source two.  Round four:
    // source two yields 10.  Then source one is exhausted and the merge
    // ends.
    assert_eq!(out, vec![(false, 1u64), (false, 2), (true, 10)]);
}
