use vstd::prelude::*;

verus! {

/// A whitelist of (round number, repeat count) pairs: a round survives the
/// filter exactly when its pair is listed.
#[derive(Debug, Clone)]
pub struct KyokuFilter {
    pub entries: Vec<(u8, u8)>,
}

impl KyokuFilter {
    /// True when this filter admits the pair.
    pub open spec fn spec_test(&self, kyoku_num: u8, honba: u8) -> bool {
        self.entries@.contains((kyoku_num, honba))
    }

    /// A filter that admits nothing.
    pub fn new() -> (r: KyokuFilter)
        ensures
            r.entries@ == Seq::<(u8, u8)>::empty(),
    {
        KyokuFilter { entries: Vec::new() }
    }

    /// Extend the filter so that it also admits (kyoku_num, honba).
    pub fn allow(&mut self, kyoku_num: u8, honba: u8)
        ensures
            final(self).entries@ == old(self).entries@.push((kyoku_num, honba)),
    {
        self.entries.push((kyoku_num, honba));
    }

    /// Decide whether the pair is admitted.
    pub fn test(&self, kyoku_num: u8, honba: u8) -> (r: bool)
        ensures
            r == self.spec_test(kyoku_num, honba),
    {
        let n = self.entries.len();
        let mut i: usize = 0;
        while i < n
            invariant
                i <= n,
                n == self.entries@.len(),
                forall|j: int| 0 <= j < i ==> self.entries@[j] != (kyoku_num, honba),
            decreases n - i,
        {
            let e = self.entries[i];
            if e.0 == kyoku_num && e.1 == honba {
                assert(self.entries@[i as int] == (kyoku_num, honba));
                return true;
            }
            i += 1;
        }
        false
    }
}

} // verus!
