use vstd::prelude::*;
use vstd::string::{StrSliceExecFns, StringExecFns};

verus! {

/// A frame rate as the text on either side of the one `/` in "num/den".
#[derive(Debug)]
pub struct FrameRate {
    pub numerator: String,
    pub denominator: String,
}

/// `i` is the position of a `/` in `t`, and `t` holds no other `/`.
pub open spec fn sole_slash_at(t: Seq<char>, i: int) -> bool {
    &&& 0 <= i < t.len()
    &&& t[i] == '/'
    &&& forall|j: int| 0 <= j < t.len() && j != i ==> t[j] != '/'
}

/// The two halves of a "num/den" text: present exactly when the text holds
/// one `/` and no more.
pub open spec fn rate_halves(t: Seq<char>) -> Option<(Seq<char>, Seq<char>)> {
    if exists|i: int| sole_slash_at(t, i) {
        let i = choose|i: int| sole_slash_at(t, i);
        Some((t.subrange(0, i), t.subrange(i + 1, t.len() as int)))
    } else {
        None
    }
}

impl FrameRate {
    pub open spec fn halves(&self) -> (Seq<char>, Seq<char>) {
        (self.numerator@, self.denominator@)
    }

    /// Splits a "num/den" text at its `/`; nothing unless it splits into
    /// exactly two parts.
    pub fn parse(t: &str) -> (r: Option<FrameRate>)
        ensures
            r is Some <==> rate_halves(t@) is Some,
            r is Some ==> r->0.halves() == rate_halves(t@)->0,
    {
        let n = t.unicode_len();
        let mut slashes: usize = 0;
        let mut pos: usize = 0;
        let mut i: usize = 0;
        while i < n
            invariant
                n == t@.len(),
                i <= n,
                slashes <= i,
                slashes == 0 ==> forall|j: int| 0 <= j < i ==> t@[j] != '/',
                slashes >= 1 ==> pos < i && t@[pos as int] == '/',
                slashes == 1 ==> forall|j: int| 0 <= j < i && j != pos ==> t@[j] != '/',
                slashes >= 2 ==> !(exists|k: int| sole_slash_at(t@, k)),
            decreases n - i,
        {
            let c = t.get_char(i);
            if c == '/' {
                if slashes == 0 {
                    pos = i;
                    slashes = 1;
                } else {
                    proof {
                        assert forall|k: int| !sole_slash_at(t@, k) by {
                            if sole_slash_at(t@, k) {
                                assert(k == pos || k == i);
                            }
                        }
                    }
                    slashes = 2;
                }
            }
            i = i + 1;
        }
        if slashes == 1 {
            proof {
                assert(sole_slash_at(t@, pos as int));
                let k = choose|k: int| sole_slash_at(t@, k);
                assert(k == pos);
            }
            let numerator = String::from_str(t.substring_char(0, pos));
            let denominator = String::from_str(t.substring_char(pos + 1, n));
            Some(FrameRate { numerator, denominator })
        } else {
            proof {
                if slashes == 0 {
                    assert forall|k: int| !sole_slash_at(t@, k) by {
                        if sole_slash_at(t@, k) {
                            assert(t@[k] != '/');
                        }
                    }
                }
            }
            None
        }
    }
}

} // verus!
