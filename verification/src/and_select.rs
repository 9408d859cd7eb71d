//! A fair two-source merge: local-input frames and remote-output frames are
//! interleaved into one ordered sequence feeding the transport.
//!
//! On each poll the favored source is tried first.  If it yields an item,
//! the item is emitted and favor flips to the other source — round-robin
//! fairness, so neither source can starve the other.  If the favored source
//! is not ready, the other source's result is taken as-is, without flipping
//! favor.  The first end-of-stream from either source ends the merged
//! sequence immediately.

use vstd::prelude::*;

verus! {

/// What one poll of a source yields.
#[derive(Clone, Copy, Debug)]
pub enum SourcePoll<T> {
    /// An item is ready.
    Ready(T),
    /// The source has ended; the merged sequence ends with it.
    End,
    /// Nothing ready yet.
    Pending,
}

/// The merge's whole state: which source is favored on the next poll.
/// `false` favors source one, `true` source two.
pub struct AndSelect {
    pub flag: bool,
}

/// A fresh merge, favoring source one first.
pub fn new() -> (s: AndSelect)
    ensures
        s.flag == false,
{
    AndSelect { flag: false }
}

/// The decision after the favored source was polled.
pub enum FirstOutcome<T> {
    /// Emit this item; favor has flipped to the other source.
    Emit(T),
    /// The merged sequence ends now.
    End,
    /// Not ready: poll the other source and take its result as-is.
    TryOther,
}

impl AndSelect {
    /// Which source to poll first now: `false` for source one.
    pub fn favored(&self) -> (b: bool)
        ensures
            b == self.flag,
    {
        self.flag
    }

    /// Applies the favored source's poll result: an item flips favor and is
    /// emitted; an end ends the merge; pending defers to the other source,
    /// leaving favor unchanged.
    pub fn on_first<T>(&mut self, r: SourcePoll<T>) -> (o: FirstOutcome<T>)
        ensures
            match r {
                SourcePoll::Ready(t) => (o matches FirstOutcome::Emit(x) && x == t)
                    && final(self).flag == !old(self).flag,
                SourcePoll::End => o is End && final(self).flag == old(self).flag,
                SourcePoll::Pending => o is TryOther && final(self).flag == old(self).flag,
            },
    {
        match r {
            SourcePoll::Ready(t) => {
                self.flag = !self.flag;
                FirstOutcome::Emit(t)
            },
            SourcePoll::End => FirstOutcome::End,
            SourcePoll::Pending => FirstOutcome::TryOther,
        }
    }
}

/// One poll of a scripted source: the entry at the cursor, or `End` once
/// the script is used up — a finite source ends.
pub open spec fn script_poll<T>(s: Seq<SourcePoll<T>>, c: int) -> SourcePoll<T> {
    if 0 <= c < s.len() {
        s[c]
    } else {
        SourcePoll::End
    }
}

/// The result of running the merge over two scripted sources: the emitted
/// items, each tagged with its origin (`false` for source one), and how many
/// entries of each script were consumed.
pub struct MergeOut<T> {
    pub out: Seq<(bool, T)>,
    pub c1: int,
    pub c2: int,
}

/// Running the merge over two scripts from the given cursors: on each round
/// the favored source is polled, and on `Pending` the other one; the first
/// `End` polled ends the run.
pub open spec fn merge_model<T>(
    flag: bool,
    s1: Seq<SourcePoll<T>>,
    c1: int,
    s2: Seq<SourcePoll<T>>,
    c2: int,
) -> MergeOut<T>
    decreases s1.len() + s2.len() - c1 - c2,
{
    if !(0 <= c1 <= s1.len() && 0 <= c2 <= s2.len()) {
        MergeOut { out: Seq::empty(), c1, c2 }
    } else {
        let a1 = if c1 < s1.len() {
            c1 + 1
        } else {
            c1
        };
        let a2 = if c2 < s2.len() {
            c2 + 1
        } else {
            c2
        };
        if !flag {
            match script_poll(s1, c1) {
                SourcePoll::Ready(t) => {
                    let rest = merge_model(true, s1, a1, s2, c2);
                    MergeOut { out: seq![(false, t)] + rest.out, c1: rest.c1, c2: rest.c2 }
                },
                SourcePoll::End => MergeOut { out: Seq::empty(), c1: a1, c2: c2 },
                SourcePoll::Pending => match script_poll(s2, c2) {
                    SourcePoll::Ready(t) => {
                        let rest = merge_model(false, s1, a1, s2, a2);
                        MergeOut { out: seq![(true, t)] + rest.out, c1: rest.c1, c2: rest.c2 }
                    },
                    SourcePoll::End => MergeOut { out: Seq::empty(), c1: a1, c2: a2 },
                    SourcePoll::Pending => merge_model(false, s1, a1, s2, a2),
                },
            }
        } else {
            match script_poll(s2, c2) {
                SourcePoll::Ready(t) => {
                    let rest = merge_model(false, s1, c1, s2, a2);
                    MergeOut { out: seq![(true, t)] + rest.out, c1: rest.c1, c2: rest.c2 }
                },
                SourcePoll::End => MergeOut { out: Seq::empty(), c1: c1, c2: a2 },
                SourcePoll::Pending => match script_poll(s1, c1) {
                    SourcePoll::Ready(t) => {
                        let rest = merge_model(true, s1, a1, s2, a2);
                        MergeOut { out: seq![(false, t)] + rest.out, c1: rest.c1, c2: rest.c2 }
                    },
                    SourcePoll::End => MergeOut { out: Seq::empty(), c1: a1, c2: a2 },
                    SourcePoll::Pending => merge_model(true, s1, a1, s2, a2),
                },
            }
        }
    }
}

/// One poll of a scripted source, advancing its cursor while entries remain.
fn poll_script<T: Copy>(s: &Vec<SourcePoll<T>>, c: &mut usize) -> (r: SourcePoll<T>)
    requires
        *old(c) <= s@.len(),
    ensures
        r == script_poll(s@, *old(c) as int),
        *final(c) == if *old(c) < s@.len() {
            *old(c) + 1
        } else {
            *old(c) as int
        },
{
    if *c < s.len() {
        let r = s[*c];
        *c = *c + 1;
        r
    } else {
        SourcePoll::End
    }
}

/// Runs the merge over two scripted sources, exactly as `merge_model`
/// describes, starting with source one favored.
pub fn merge_scripts<T: Copy>(s1: &Vec<SourcePoll<T>>, s2: &Vec<SourcePoll<T>>) -> (r: Vec<
    (bool, T),
>)
    ensures
        r@ == merge_model(false, s1@, 0, s2@, 0).out,
{
    let mut sel = new();
    let mut c1: usize = 0;
    let mut c2: usize = 0;
    let mut out: Vec<(bool, T)> = Vec::new();
    let mut done: bool = false;
    while !done
        invariant
            c1 <= s1@.len(),
            c2 <= s2@.len(),
            done ==> out@ == merge_model(false, s1@, 0, s2@, 0).out,
            !done ==> merge_model(false, s1@, 0, s2@, 0).out == out@ + merge_model(
                sel.flag,
                s1@,
                c1 as int,
                s2@,
                c2 as int,
            ).out,
        decreases s1@.len() + s2@.len() - c1 - c2 + (if done {
            0int
        } else {
            1int
        }),
    {
        let ghost pre_flag = sel.flag;
        let ghost pc1 = c1 as int;
        let ghost pc2 = c2 as int;
        let ghost pre_out = out@;
        let fav = sel.favored();
        let r1 = if !fav {
            poll_script(s1, &mut c1)
        } else {
            poll_script(s2, &mut c2)
        };
        match sel.on_first(r1) {
            FirstOutcome::Emit(t) => {
                out.push((fav, t));
                proof {
                    let rest = merge_model(sel.flag, s1@, c1 as int, s2@, c2 as int).out;
                    assert(pre_out + (seq![(pre_flag, t)] + rest) =~= out@ + rest);
                }
            },
            FirstOutcome::End => {
                done = true;
            },
            FirstOutcome::TryOther => {
                let r2 = if !fav {
                    poll_script(s2, &mut c2)
                } else {
                    poll_script(s1, &mut c1)
                };
                match r2 {
                    SourcePoll::Ready(t) => {
                        out.push((!fav, t));
                        proof {
                            let rest = merge_model(sel.flag, s1@, c1 as int, s2@, c2 as int).out;
                            assert(pre_out + (seq![(!pre_flag, t)] + rest) =~= out@ + rest);
                        }
                    },
                    SourcePoll::End => {
                        done = true;
                    },
                    SourcePoll::Pending => {},
                }
            },
        }
    }
    out
}

/// Every entry of the script is a ready item: a source that always has an
/// item available.
pub open spec fn all_ready<T>(s: Seq<SourcePoll<T>>) -> bool {
    forall|i: int| 0 <= i < s.len() ==> s[i] is Ready
}

/// Fairness: when both sources always have an item ready, the merged output
/// strictly alternates between the two origins, starting with the source
/// favored at the outset.
pub proof fn lemma_merge_alternates<T>(
    flag: bool,
    s1: Seq<SourcePoll<T>>,
    c1: int,
    s2: Seq<SourcePoll<T>>,
    c2: int,
)
    requires
        all_ready(s1),
        all_ready(s2),
        0 <= c1 <= s1.len(),
        0 <= c2 <= s2.len(),
    ensures
        ({
            let m = merge_model(flag, s1, c1, s2, c2);
            forall|i: int|
                0 <= i < m.out.len() ==> m.out[i].0 == (if i % 2 == 0 {
                    flag
                } else {
                    !flag
                })
        }),
    decreases s1.len() + s2.len() - c1 - c2,
{
    let m = merge_model(flag, s1, c1, s2, c2);
    if !flag {
        if c1 < s1.len() {
            lemma_merge_alternates(true, s1, c1 + 1, s2, c2);
            let rest = merge_model(true, s1, c1 + 1, s2, c2);
            if let SourcePoll::Ready(t) = s1[c1] {
                assert(m.out == seq![(false, t)] + rest.out);
                assert forall|i: int| 0 <= i < m.out.len() implies m.out[i].0 == (if i % 2 == 0 {
                    flag
                } else {
                    !flag
                }) by {
                    if i > 0 {
                        assert(m.out[i] == rest.out[i - 1]);
                        assert((i - 1) % 2 == (if i % 2 == 0 {
                            1int
                        } else {
                            0int
                        }));
                    }
                }
            }
        }
    } else {
        if c2 < s2.len() {
            lemma_merge_alternates(false, s1, c1, s2, c2 + 1);
            let rest = merge_model(false, s1, c1, s2, c2 + 1);
            if let SourcePoll::Ready(t) = s2[c2] {
                assert(m.out == seq![(true, t)] + rest.out);
                assert forall|i: int| 0 <= i < m.out.len() implies m.out[i].0 == (if i % 2 == 0 {
                    flag
                } else {
                    !flag
                }) by {
                    if i > 0 {
                        assert(m.out[i] == rest.out[i - 1]);
                        assert((i - 1) % 2 == (if i % 2 == 0 {
                            1int
                        } else {
                            0int
                        }));
                    }
                }
            }
        }
    }
}

/// The merge ends with the first source that ends: with source one holding
/// a finite run of ready items and source two always ready with at least as
/// many, the run emits every item of source one, interleaved one-for-one,
/// ends the moment source one does, and consumes nothing of source two
/// afterwards.
pub proof fn lemma_merge_ends_with_first_source<T>(
    s1: Seq<SourcePoll<T>>,
    c1: int,
    s2: Seq<SourcePoll<T>>,
    c2: int,
)
    requires
        all_ready(s1),
        all_ready(s2),
        0 <= c1 <= s1.len(),
        0 <= c2 <= s2.len(),
        s1.len() - c1 <= s2.len() - c2,
    ensures
        ({
            let m = merge_model(false, s1, c1, s2, c2);
            &&& m.out.len() == 2 * (s1.len() - c1)
            &&& m.c1 == s1.len()
            &&& m.c2 == c2 + (s1.len() - c1)
        }),
    decreases s1.len() - c1,
{
    let m = merge_model(false, s1, c1, s2, c2);
    if c1 < s1.len() {
        lemma_merge_ends_with_first_source(s1, c1 + 1, s2, c2 + 1);
        let mid = merge_model(true, s1, c1 + 1, s2, c2);
        let rest = merge_model(false, s1, c1 + 1, s2, c2 + 1);
        if let SourcePoll::Ready(t1) = s1[c1] {
            if let SourcePoll::Ready(t2) = s2[c2] {
                assert(mid.out == seq![(true, t2)] + rest.out);
                assert(m.out == seq![(false, t1)] + mid.out);
            }
        }
    }
}

} // verus!
