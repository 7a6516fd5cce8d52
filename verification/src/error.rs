//! The library's error type: a chain of messages, outermost context first.

use vstd::prelude::*;

use crate::text::{join, push_str, sviews};

verus! {

/// An error carrying a chain of messages, the outermost context first and
/// the root cause last.
#[derive(Debug, Clone)]
pub struct Error {
    chain: Vec<String>,
}

impl View for Error {
    type V = Seq<Seq<char>>;

    closed spec fn view(&self) -> Seq<Seq<char>> {
        sviews(self.chain@)
    }
}

/// The alternate rendering of an error chain: every message, joined by
/// `": "`.
pub open spec fn full_text(chain: Seq<Seq<char>>) -> Seq<char> {
    join(chain, ": "@)
}

/// The outermost message of an error chain (what `Display` shows).
pub open spec fn outer_message(chain: Seq<Seq<char>>) -> Seq<char> {
    if chain.len() > 0 {
        chain[0]
    } else {
        Seq::empty()
    }
}

impl Error {
    /// An error with a single message.
    pub fn msg(m: String) -> (e: Error)
        ensures
            e@ == seq![m@],
    {
        let mut chain: Vec<String> = Vec::new();
        chain.push(m);
        let e = Error { chain };
        assert(e@ =~= seq![e.chain@[0]@]);
        e
    }

    /// This error wrapped in an outer context message.
    pub fn context(self, ctx: String) -> (e: Error)
        ensures
            e@ == seq![ctx@] + self@,
    {
        let mut chain: Vec<String> = Vec::new();
        chain.push(ctx);
        let mut i: usize = 0;
        while i < self.chain.len()
            invariant
                i <= self.chain.len(),
                chain.len() == i + 1,
                chain@[0]@ == ctx@,
                forall|k: int| 1 <= k <= i ==> #[trigger] chain@[k]@ == self.chain@[k - 1]@,
            decreases self.chain.len() - i,
        {
            chain.push(self.chain[i].clone());
            i = i + 1;
        }
        let e = Error { chain };
        assert(e@ =~= seq![ctx@] + self@);
        e
    }

    /// A copy of this error.
    pub fn duplicate(&self) -> (e: Error)
        ensures
            e@ == self@,
    {
        let mut chain: Vec<String> = Vec::new();
        let mut i: usize = 0;
        while i < self.chain.len()
            invariant
                i <= self.chain.len(),
                chain.len() == i,
                forall|k: int| 0 <= k < i ==> #[trigger] chain@[k]@ == self.chain@[k]@,
            decreases self.chain.len() - i,
        {
            chain.push(self.chain[i].clone());
            i = i + 1;
        }
        let e = Error { chain };
        assert(e@ =~= self@);
        e
    }

    /// The outermost message (what `Display` shows).
    pub fn message(&self) -> (r: String)
        ensures
            r@ == outer_message(self@),
    {
        if self.chain.len() > 0 {
            self.chain[0].clone()
        } else {
            String::new()
        }
    }

    /// Every message of the chain joined by `": "` (the alternate rendering).
    pub fn full_message(&self) -> (r: String)
        ensures
            r@ == full_text(self@),
    {
        let mut r = String::new();
        let mut i: usize = 0;
        while i < self.chain.len()
            invariant
                i <= self.chain.len(),
                r@ == join(sviews(self.chain@).take(i as int), ": "@),
            decreases self.chain.len() - i,
        {
            let ghost pre = sviews(self.chain@).take(i as int);
            if i > 0 {
                push_str(&mut r, ": ");
            }
            push_str(&mut r, self.chain[i].as_str());
            proof {
                let nxt = sviews(self.chain@).take(i + 1);
                assert(nxt.drop_last() =~= pre);
                if i == 0 {
                    assert(r@ =~= nxt[0]);
                } else {
                    assert(r@ =~= join(pre, ": "@) + ": "@ + nxt.last());
                }
            }
            i = i + 1;
        }
        assert(sviews(self.chain@).take(self.chain.len() as int) =~= sviews(self.chain@));
        r
    }
}

} // verus!
