use vstd::prelude::*;

verus! {

/// The first data segment of each TXT record that has one, in record order.
/// Only the first segment of a record is considered; the rest are ignored.
pub open spec fn spec_first_segments(records: Seq<Seq<Seq<u8>>>) -> Seq<Seq<u8>>
    decreases records.len(),
{
    if records.len() == 0 {
        Seq::empty()
    } else {
        spec_first_segments(records.drop_last()) + (if records.last().len() > 0 {
            seq![records.last()[0]]
        } else {
            Seq::empty()
        })
    }
}

/// Keeps, of each TXT record's data segments, only the first, passing over
/// records with no segment at all.
pub fn first_segments(records: &Vec<Vec<Vec<u8>>>) -> (firsts: Vec<Vec<u8>>)
    ensures
        firsts.deep_view() == spec_first_segments(records.deep_view()),
{
    let n = records.len();
    let mut firsts: Vec<Vec<u8>> = Vec::new();
    let mut i: usize = 0;
    while i < n
        invariant
            i <= n,
            n == records@.len(),
            firsts.deep_view() == spec_first_segments(records.deep_view().take(i as int)),
        decreases n - i,
    {
        let ghost pre = records.deep_view().take(i as int);
        let ghost cur = records.deep_view().take(i as int + 1);
        proof {
            assert(cur.drop_last() =~= pre);
            assert(cur.last() == records.deep_view()[i as int]);
        }
        if records[i].len() > 0 {
            let first = records[i][0].clone();
            proof {
                assert(first.deep_view() =~= records.deep_view()[i as int][0]);
            }
            firsts.push(first);
        }
        proof {
            assert(firsts.deep_view() =~= spec_first_segments(cur));
        }
        i += 1;
    }
    proof {
        assert(records.deep_view().take(n as int) =~= records.deep_view());
    }
    firsts
}

/// A mail-exchanger record reduced to what the logic reads: its preference
/// and its exchange host. Ordering and equality go by the preference alone.
pub struct SortableMX {
    pub preference: u16,
    pub exchange: String,
}

impl PartialEq for SortableMX {
    fn eq(&self, other: &Self) -> (r: bool) {
        self.preference == other.preference
    }
}

impl vstd::std_specs::cmp::PartialEqSpecImpl for SortableMX {
    open spec fn obeys_eq_spec() -> bool {
        true
    }

    open spec fn eq_spec(&self, other: &Self) -> bool {
        self.preference == other.preference
    }
}

impl PartialOrd for SortableMX {
    fn partial_cmp(&self, other: &Self) -> (r: Option<core::cmp::Ordering>) {
        if self.preference < other.preference {
            Some(core::cmp::Ordering::Less)
        } else if self.preference == other.preference {
            Some(core::cmp::Ordering::Equal)
        } else {
            Some(core::cmp::Ordering::Greater)
        }
    }
}

impl vstd::std_specs::cmp::PartialOrdSpecImpl for SortableMX {
    open spec fn obeys_partial_cmp_spec() -> bool {
        true
    }

    open spec fn partial_cmp_spec(&self, other: &Self) -> Option<core::cmp::Ordering> {
        if self.preference < other.preference {
            Some(core::cmp::Ordering::Less)
        } else if self.preference == other.preference {
            Some(core::cmp::Ordering::Equal)
        } else {
            Some(core::cmp::Ordering::Greater)
        }
    }
}

} // verus!
