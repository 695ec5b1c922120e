//! The submessage grouper: partitions the flat section index into logical
//! submessages, one decodable field each.  A submessage owns its sections
//! 4 to 7 and inherits the most recently seen sections 1 to 3 of its
//! message; a reappearing section 1, 2 or 3 replaces the inherited one for
//! all later submessages of that message.

use vstd::prelude::*;
use crate::error::GribError;
use crate::sections::SectionInfo;

verus! {

/// One decodable field: positions into the section index of the handle
/// that owns it.  Section 2 is optional in a message.
#[derive(Debug, Clone, Copy, PartialEq, Eq, Structural)]
pub struct SubMessage {
    pub sect1: usize,
    pub sect2: Option<usize>,
    pub sect3: usize,
    pub sect4: usize,
    pub sect5: usize,
    pub sect6: usize,
    pub sect7: usize,
}

/// The position of the most recent section numbered `num` strictly before
/// `i`, not looking past the start of the current message (a section 0).
pub open spec fn prev_in_msg(ss: Seq<SectionInfo>, i: int, num: u8) -> Option<int>
    decreases i,
{
    if i <= 0 {
        None
    } else if ss[i - 1].num == 0 {
        None
    } else if ss[i - 1].num == num {
        Some(i - 1)
    } else {
        prev_in_msg(ss, i - 1, num)
    }
}

/// Whether the section 4 at position `i` has everything a submessage
/// needs: its own sections 5, 6, 7 right after it, and inherited
/// sections 1 and 3 earlier in its message.
pub open spec fn groupable_at(ss: Seq<SectionInfo>, i: int) -> bool {
    &&& i + 3 < ss.len()
    &&& ss[i + 1].num == 5
    &&& ss[i + 2].num == 6
    &&& ss[i + 3].num == 7
    &&& prev_in_msg(ss, i, 1) is Some
    &&& prev_in_msg(ss, i, 3) is Some
}

/// Whether every section 4 of the index can anchor a submessage.
pub open spec fn groupable(ss: Seq<SectionInfo>) -> bool {
    forall|i: int| 0 <= i < ss.len() && ss[i].num == 4 ==> #[trigger] groupable_at(ss, i)
}

/// The submessage anchored at the section 4 in position `i`.
pub open spec fn submessage_at(ss: Seq<SectionInfo>, i: int) -> SubMessage {
    SubMessage {
        sect1: match prev_in_msg(ss, i, 1) {
            Some(j) => j as usize,
            None => 0,
        },
        sect2: match prev_in_msg(ss, i, 2) {
            Some(j) => Some(j as usize),
            None => None,
        },
        sect3: match prev_in_msg(ss, i, 3) {
            Some(j) => j as usize,
            None => 0,
        },
        sect4: i as usize,
        sect5: (i + 1) as usize,
        sect6: (i + 2) as usize,
        sect7: (i + 3) as usize,
    }
}

/// The number of sections 4 among the first `n` entries of the index.
pub open spec fn count_sect4(ss: Seq<SectionInfo>, n: int) -> int
    decreases n,
{
    if n <= 0 {
        0
    } else {
        count_sect4(ss, n - 1) + if ss[n - 1].num == 4 {
            1int
        } else {
            0int
        }
    }
}

/// What grouping guarantees: the submessages are exactly the sections 4 of
/// the index, in order (strictly increasing anchors, one per section 4,
/// as the count equality pins), each with the fields [`submessage_at`]
/// gives it.
pub open spec fn group_post(ss: Seq<SectionInfo>, subs: Seq<SubMessage>) -> bool {
    &&& forall|k: int|
        0 <= k < subs.len() ==> {
            let i = (#[trigger] subs[k]).sect4 as int;
            &&& 0 <= i < ss.len()
            &&& ss[i].num == 4
            &&& subs[k] == submessage_at(ss, i)
        }
    &&& forall|k1: int, k2: int|
        0 <= k1 < k2 < subs.len() ==> (#[trigger] subs[k1]).sect4 < (#[trigger] subs[k2]).sect4
    &&& subs.len() == count_sect4(ss, ss.len() as int)
}

/// Groups a section index into its submessages.  Fails only on an index
/// where some section 4 lacks its own 5/6/7 or an inherited 1 or 3 —
/// something a scanned index never shows.
#[verifier::rlimit(100)]
pub fn group_submessages(ss: &Vec<SectionInfo>) -> (r: Result<Vec<SubMessage>, GribError>)
    ensures
        match r {
            Ok(subs) => groupable(ss@) && group_post(ss@, subs@),
            Err(e) => e == GribError::InternalDataError && !groupable(ss@),
        },
{
    let mut subs: Vec<SubMessage> = Vec::new();
    let mut last1: Option<usize> = None;
    let mut last2: Option<usize> = None;
    let mut last3: Option<usize> = None;
    let mut i: usize = 0;
    while i < ss.len()
        invariant
            i <= ss.len(),
            match last1 {
                Some(j) => prev_in_msg(ss@, i as int, 1) == Some(j as int),
                None => prev_in_msg(ss@, i as int, 1) is None,
            },
            match last2 {
                Some(j) => prev_in_msg(ss@, i as int, 2) == Some(j as int),
                None => prev_in_msg(ss@, i as int, 2) is None,
            },
            match last3 {
                Some(j) => prev_in_msg(ss@, i as int, 3) == Some(j as int),
                None => prev_in_msg(ss@, i as int, 3) is None,
            },
            forall|i0: int| 0 <= i0 < i && ss@[i0].num == 4 ==> #[trigger] groupable_at(ss@, i0),
            forall|k: int|
                0 <= k < subs@.len() ==> {
                    let i0 = (#[trigger] subs@[k]).sect4 as int;
                    &&& 0 <= i0 < i
                    &&& ss@[i0].num == 4
                    &&& subs@[k] == submessage_at(ss@, i0)
                },
            forall|k1: int, k2: int|
                0 <= k1 < k2 < subs@.len() ==> (#[trigger] subs@[k1]).sect4 < (
                #[trigger] subs@[k2]).sect4,
            subs@.len() == count_sect4(ss@, i as int),
        decreases ss.len() - i,
    {
        let ghost subs0 = subs@;
        let num = ss[i].num;
        if num == 4 {
            let ok = if ss.len() - i <= 3 {
                false
            } else {
                ss[i + 1].num == 5 && ss[i + 2].num == 6 && ss[i + 3].num == 7
            };
            if !ok || last1.is_none() || last3.is_none() {
                proof {
                    assert(!groupable_at(ss@, i as int));
                    assert(!groupable(ss@));
                }
                return Err(GribError::InternalDataError);
            }
            let s1 = match last1 {
                Some(j) => j,
                None => 0,
            };
            let s3 = match last3 {
                Some(j) => j,
                None => 0,
            };
            let sm = SubMessage {
                sect1: s1,
                sect2: last2,
                sect3: s3,
                sect4: i,
                sect5: i + 1,
                sect6: i + 2,
                sect7: i + 3,
            };
            proof {
                assert(groupable_at(ss@, i as int));
                assert(sm == submessage_at(ss@, i as int));
            }
            subs.push(sm);
        }
        proof {
            let ii = i as int;
            assert(ss@[ii].num == num);
            assert(count_sect4(ss@, ii + 1) == count_sect4(ss@, ii) + if num == 4 {
                1int
            } else {
                0int
            });
            // one unfolding step of the most-recent trackers
            assert(prev_in_msg(ss@, ii + 1, 1) == (if num == 0 {
                None
            } else if num == 1 {
                Some(ii)
            } else {
                prev_in_msg(ss@, ii, 1)
            }));
            assert(prev_in_msg(ss@, ii + 1, 2) == (if num == 0 {
                None
            } else if num == 2 {
                Some(ii)
            } else {
                prev_in_msg(ss@, ii, 2)
            }));
            assert(prev_in_msg(ss@, ii + 1, 3) == (if num == 0 {
                None
            } else if num == 3 {
                Some(ii)
            } else {
                prev_in_msg(ss@, ii, 3)
            }));
        }
        if num == 0 {
            last1 = None;
            last2 = None;
            last3 = None;
        } else if num == 1 {
            last1 = Some(i);
        } else if num == 2 {
            last2 = Some(i);
        } else if num == 3 {
            last3 = Some(i);
        }
        i = i + 1;
    }
    Ok(subs)
}

} // verus!
