//! An ordered list of syntax nodes.
use crate::formatter::{Format, Formatter, Layout};
use vstd::prelude::*;

verus! {

/// The elements of a comma-separated or repeated part of the grammar, in
/// the order of the input.
#[derive(Debug, PartialEq, Clone)]
pub struct List<T>(pub Vec<T>);

impl<T: DeepView> DeepView for List<T> {
    type V = Seq<T::V>;

    open spec fn deep_view(&self) -> Seq<T::V> {
        self.0.deep_view()
    }
}

/// The first `n` of `items`, each behind `", "` but the first.
pub open spec fn comma_separated(items: Seq<Seq<char>>, n: nat) -> Seq<char>
    decreases n,
{
    if n == 0 || n > items.len() {
        Seq::empty()
    } else if n == 1 {
        items[0]
    } else {
        comma_separated(items, (n - 1) as nat) + seq![',', ' '] + items[n - 1]
    }
}

/// Strings are written in one line, separated by `", "`.
impl Format for List<String> {
    open spec fn rendered(&self, st: Layout) -> Layout {
        st.append(comma_separated(self.0.deep_view(), self.0@.len()))
    }

    fn format<'a>(&self, f: &'a mut Formatter) -> (r: &'a mut Formatter) {
        let ghost texts = self.0.deep_view();
        let mut i: usize = 0;
        proof {
            assert(f@.buffer =~= old(f)@.buffer + comma_separated(texts, 0));
        }
        while i < self.0.len()
            invariant
                i <= self.0.len(),
                texts == self.0.deep_view(),
                texts.len() == self.0@.len(),
                f@ == old(f)@.append(comma_separated(texts, i as nat)),
            decreases self.0.len() - i,
        {
            let ghost before = f@;
            if i > 0 {
                f.append(", ");
            }
            f.append(self.0[i].as_str());
            proof {
                reveal_strlit(", ");
                assert(texts[i as int] == self.0@[i as int]@);
                assert(", "@ =~= seq![',', ' ']);
                assert(f@.buffer =~= old(f)@.buffer + comma_separated(texts, (i + 1) as nat));
            }
            i += 1;
        }
        f
    }
}

impl List<String> {
    /// The elements, separated by `", "`.
    pub fn to_string(&self) -> (s: String)
        ensures
            s@ == comma_separated(self.0.deep_view(), self.0@.len()),
    {
        let s = self.output();
        assert(s@ =~= comma_separated(self.0.deep_view(), self.0@.len()));
        s
    }
}

/// String slices are written in one line, separated by `", "`.
impl<'a> Format for List<&'a str> {
    open spec fn rendered(&self, st: Layout) -> Layout {
        st.append(comma_separated(self.0.deep_view(), self.0@.len()))
    }

    fn format<'b>(&self, f: &'b mut Formatter) -> (r: &'b mut Formatter) {
        let ghost texts = self.0.deep_view();
        let mut i: usize = 0;
        proof {
            assert(f@.buffer =~= old(f)@.buffer + comma_separated(texts, 0));
        }
        while i < self.0.len()
            invariant
                i <= self.0.len(),
                texts == self.0.deep_view(),
                texts.len() == self.0@.len(),
                f@ == old(f)@.append(comma_separated(texts, i as nat)),
            decreases self.0.len() - i,
        {
            let ghost before = f@;
            if i > 0 {
                f.append(", ");
            }
            f.append(self.0[i]);
            proof {
                reveal_strlit(", ");
                assert(texts[i as int] == self.0@[i as int]@);
                assert(", "@ =~= seq![',', ' ']);
                assert(f@.buffer =~= old(f)@.buffer + comma_separated(texts, (i + 1) as nat));
            }
            i += 1;
        }
        f
    }
}

impl<'a> List<&'a str> {
    /// The elements, separated by `", "`.
    pub fn to_string(&self) -> (s: String)
        ensures
            s@ == comma_separated(self.0.deep_view(), self.0@.len()),
    {
        let s = self.output();
        assert(s@ =~= comma_separated(self.0.deep_view(), self.0@.len()));
        s
    }
}

} // verus!
