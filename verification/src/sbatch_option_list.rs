//! A list of `sbatch` options keyed by flag identity: at most one option
//! per flag; `append` rejects a present flag, `overwrite` replaces it.

use vstd::prelude::*;
use vstd::string::*;

use crate::order;
use crate::order::{join_seq, sort_seq, views_of};
use crate::sbatch_option::{option_text, tag, SbatchOption};

verus! {

/// Whether some option of the list sets the flag of rank `t`.
pub open spec fn has_variant(l: Seq<SbatchOption>, t: int) -> bool {
    exists|i: int| 0 <= i < l.len() && tag(&l[i]) == t
}

/// The list with every option of rank `t` removed, order kept.
pub open spec fn drop_variant(l: Seq<SbatchOption>, t: int) -> Seq<SbatchOption>
    decreases l.len(),
{
    if l.len() == 0 {
        Seq::empty()
    } else if tag(&l[0]) == t {
        drop_variant(l.drop_first(), t)
    } else {
        seq![l[0]] + drop_variant(l.drop_first(), t)
    }
}

/// The rendered texts of a list of options.
pub open spec fn option_texts(l: Seq<SbatchOption>) -> Seq<Seq<char>> {
    Seq::new(l.len(), |i: int| option_text(&l[i]))
}

/// Whether the list sets each flag at most once.
pub open spec fn unique_tags(l: Seq<SbatchOption>) -> bool {
    forall|i: int, j: int| 0 <= i < j < l.len() ==> tag(&l[i]) != tag(&l[j])
}

/// Dropping a flag leaves no option of that flag, keeps only options of
/// the original list, and preserves flag uniqueness.
pub proof fn lemma_drop_variant_props(l: Seq<SbatchOption>, t: int)
    ensures
        forall|i: int|
            0 <= i < drop_variant(l, t).len() ==> tag(&#[trigger] drop_variant(l, t)[i]) != t,
        forall|i: int|
            0 <= i < drop_variant(l, t).len() ==> exists|j: int|
                0 <= j < l.len() && l[j] == #[trigger] drop_variant(l, t)[i],
        unique_tags(l) ==> unique_tags(drop_variant(l, t)),
    decreases l.len(),
{
    let dv = drop_variant(l, t);
    if l.len() == 0 {
    } else {
        let tail = l.drop_first();
        assert(forall|i: int| 0 <= i < tail.len() ==> #[trigger] tail[i] == l[i + 1]);
        lemma_drop_variant_props(tail, t);
        let dt = drop_variant(tail, t);
        assert forall|i: int|
            0 <= i < dt.len() implies exists|j: int| 0 <= j < l.len() && l[j]
            == #[trigger] dt[i] by {
            let j = choose|j: int| 0 <= j < tail.len() && tail[j] == dt[i];
            assert(l[j + 1] == dt[i]);
        }
        if tag(&l[0]) == t {
            assert(dv == dt);
        } else {
            assert(dv == seq![l[0]] + dt);
            assert(forall|i: int| 1 <= i < dv.len() ==> #[trigger] dv[i] == dt[i - 1]);
            assert(dv[0] == l[0]);
            if unique_tags(l) {
                assert(unique_tags(tail));
                assert forall|i: int, j: int| 0 <= i < j < dv.len() implies tag(
                    &#[trigger] dv[i],
                ) != tag(&#[trigger] dv[j]) by {
                    if i == 0 {
                        let k = choose|k: int|
                            0 <= k < tail.len() && tail[k] == #[trigger] dt[j - 1];
                        assert(l[k + 1] == dt[j - 1]);
                        assert(tag(&l[0]) != tag(&l[k + 1]));
                    } else {
                        assert(dv[i] == dt[i - 1]);
                        assert(dv[j] == dt[j - 1]);
                    }
                }
            }
        }
    }
}

/// Errors raised when editing an option list.
#[derive(Debug, Clone, PartialEq, Eq)]
pub enum SbatchOptionListError {
    /// The flag is already set; carries the rejected option.
    OptionExists(SbatchOption),
}

/// A list of options, unique per flag identity.
#[derive(Debug, Clone)]
pub struct SbatchOptionList {
    sbatch_options: Vec<SbatchOption>,
}

impl View for SbatchOptionList {
    type V = Seq<SbatchOption>;

    closed spec fn view(&self) -> Seq<SbatchOption> {
        self.sbatch_options@
    }
}

impl Default for SbatchOptionList {
    /// An empty option list.
    fn default() -> (r: SbatchOptionList)
        ensures
            r@ == Seq::<SbatchOption>::empty(),
    {
        SbatchOptionList::new()
    }
}

impl SbatchOptionList {
    /// An empty option list.
    pub fn new() -> (r: SbatchOptionList)
        ensures
            r@ == Seq::<SbatchOption>::empty(),
    {
        let r = SbatchOptionList { sbatch_options: Vec::new() };
        proof {
            assert(r@ =~= Seq::<SbatchOption>::empty());
        }
        r
    }

    /// The number of options held.
    pub fn len(&self) -> (r: usize)
        ensures
            r == self@.len(),
    {
        self.sbatch_options.len()
    }

    /// Whether an option with the same flag is already in the list.
    pub fn contains(&self, sbatch_option: &SbatchOption) -> (r: bool)
        ensures
            r == has_variant(self@, tag(sbatch_option)),
    {
        let t = sbatch_option.variant_id();
        let mut i: usize = 0;
        while i < self.sbatch_options.len()
            invariant
                i <= self@.len(),
                self@ == self.sbatch_options@,
                t as int == tag(sbatch_option),
                forall|j: int| 0 <= j < i ==> tag(&self@[j]) != t as int,
            decreases self@.len() - i,
        {
            if sbatch_option.is_same_variant(&self.sbatch_options[i]) {
                return true;
            }
            i = i + 1;
        }
        false
    }

    /// Removes every option with the same flag as the given one.
    pub fn discard(&mut self, sbatch_option: &SbatchOption)
        ensures
            final(self)@ == drop_variant(old(self)@, tag(sbatch_option)),
    {
        let ghost l = self@;
        let ghost t = tag(sbatch_option);
        let mut i: usize = 0;
        proof {
            assert(self@.skip(0) =~= self@);
            assert(self@.take(0) + drop_variant(self@.skip(0), t) =~= drop_variant(l, t));
        }
        while i < self.sbatch_options.len()
            invariant
                i <= self@.len(),
                self@ == self.sbatch_options@,
                t == tag(sbatch_option),
                forall|j: int| 0 <= j < i ==> tag(&self@[j]) != t,
                drop_variant(l, t) == self@.take(i as int) + drop_variant(
                    self@.skip(i as int),
                    t,
                ),
            decreases self@.len() - i,
        {
            let ghost cur = self@;
            proof {
                assert(cur.skip(i as int)[0] == cur[i as int]);
                assert(cur.skip(i as int).drop_first() =~= cur.skip(i + 1));
            }
            if sbatch_option.is_same_variant(&self.sbatch_options[i]) {
                self.sbatch_options.remove(i);
                proof {
                    assert(self@ =~= cur.take(i as int) + cur.skip(i + 1));
                    assert(self@.take(i as int) =~= cur.take(i as int));
                    assert(self@.skip(i as int) =~= cur.skip(i + 1));
                }
            } else {
                proof {
                    assert(cur.take(i + 1) =~= cur.take(i as int).push(cur[i as int]));
                    assert(cur.take(i as int) + (seq![cur[i as int]] + drop_variant(
                        cur.skip(i + 1),
                        t,
                    )) =~= cur.take(i + 1) + drop_variant(cur.skip(i + 1), t));
                }
                i = i + 1;
            }
        }
        proof {
            assert(self@.skip(i as int) =~= Seq::<SbatchOption>::empty());
            assert(self@.take(i as int) =~= self@);
            assert(self@ + drop_variant(self@.skip(i as int), t) =~= self@);
        }
    }

    /// Appends an option; a flag already present is an error.
    pub fn append(&mut self, sbatch_option: SbatchOption) -> (r: Result<
        (),
        SbatchOptionListError,
    >)
        ensures
            r is Ok <==> !has_variant(old(self)@, tag(&sbatch_option)),
            r is Ok ==> final(self)@ == old(self)@.push(sbatch_option),
            r is Err ==> final(self)@ == old(self)@ && (r matches Err(
                SbatchOptionListError::OptionExists(o),
            ) && o == sbatch_option),
    {
        if self.contains(&sbatch_option) {
            return Err(SbatchOptionListError::OptionExists(sbatch_option));
        }
        self.sbatch_options.push(sbatch_option);
        Ok(())
    }

    /// Replaces any option with the same flag, then appends the new one.
    pub fn overwrite(&mut self, sbatch_option: SbatchOption)
        ensures
            final(self)@ == drop_variant(old(self)@, tag(&sbatch_option)).push(sbatch_option),
    {
        self.discard(&sbatch_option);
        self.sbatch_options.push(sbatch_option);
    }

    /// The rendered options, sorted lexicographically.
    pub fn get_options(&self) -> (r: Vec<String>)
        ensures
            views_of(r@) == sort_seq(option_texts(self@)),
    {
        let ghost texts = option_texts(self@);
        let mut sorted: Vec<String> = Vec::new();
        let mut i: usize = 0;
        proof {
            assert(texts.take(0) =~= Seq::<Seq<char>>::empty());
            assert(views_of(sorted@) =~= sort_seq(texts.take(0)));
        }
        while i < self.sbatch_options.len()
            invariant
                i <= self@.len(),
                self@ == self.sbatch_options@,
                texts == option_texts(self@),
                views_of(sorted@) == sort_seq(texts.take(i as int)),
            decreases self@.len() - i,
        {
            let rendered = self.sbatch_options[i].render();
            proof {
                assert(rendered@ == texts[i as int]);
            }
            order::insert_string_sorted(&mut sorted, rendered);
            proof {
                assert(texts.take(i + 1) =~= texts.take(i as int).push(texts[i as int]));
                assert(texts.take(i + 1).drop_last() =~= texts.take(i as int));
                assert(sort_seq(texts.take(i + 1)) == order::ins_sorted(
                    sort_seq(texts.take(i + 1).drop_last()),
                    texts.take(i + 1).last(),
                ));
            }
            i = i + 1;
        }
        proof {
            assert(texts.take(self@.len() as int) =~= texts);
        }
        sorted
    }

    /// The rendered options, sorted and joined with single spaces.
    pub fn render(&self) -> (r: String)
        ensures
            r@ == join_seq(sort_seq(option_texts(self@)), seq![' ']),
    {
        proof {
            reveal_strlit(" ");
            assert(" "@ =~= seq![' ']);
        }
        let options = self.get_options();
        order::join_strings(&options, " ")
    }
}

} // verus!
