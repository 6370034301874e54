//! The audio-tag fix collection.
//!
//! Every text-valued field of a tag is run through the detector, and all
//! accepted repairs are collected before anything is mutated: the mutation
//! is deferred to one commit, all-or-nothing per file. A fix is keyed by
//! the field's position in the enumeration handed in, so the caller can map
//! each repair back to the field it belongs to.

use crate::detect::fix_mojibake;
use crate::detect::spec_fix_mojibake;
use vstd::prelude::*;

verus! {

/// The views of collected fixes: field position and repaired text.
pub open spec fn fix_views(fixes: Seq<(usize, String)>) -> Seq<(int, Seq<char>)> {
    fixes.map_values(|p: (usize, String)| (p.0 as int, p.1@))
}

/// The fixes the detector accepts over a field enumeration, in field order:
/// one pair of field position and repaired text for every field whose text
/// the detector repairs, and nothing for any other field.
pub open spec fn spec_collect_fixes(texts: Seq<String>, threshold_millis: int) -> Seq<
    (int, Seq<char>),
>
    decreases texts.len(),
{
    if texts.len() == 0 {
        Seq::empty()
    } else {
        let rest = spec_collect_fixes(texts.drop_last(), threshold_millis);
        match spec_fix_mojibake(texts.last()@, threshold_millis) {
            Some(fixed) => rest.push((texts.len() - 1, fixed)),
            None => rest,
        }
    }
}

/// Runs the detector over every text field and collects the accepted
/// repairs, each tagged with its field's position; nothing is mutated here.
pub fn collect_fixes(texts: &Vec<String>, threshold_millis: i64) -> (r: Vec<(usize, String)>)
    ensures
        fix_views(r@) == spec_collect_fixes(texts@, threshold_millis as int),
{
    let mut fixes: Vec<(usize, String)> = Vec::new();
    let mut i: usize = 0;
    while i < texts.len()
        invariant
            i <= texts@.len(),
            fix_views(fixes@) == spec_collect_fixes(texts@.take(i as int), threshold_millis as int),
        decreases texts@.len() - i,
    {
        let text = &texts[i];
        if let Some(fixed) = fix_mojibake(text.as_str(), threshold_millis) {
            fixes.push((i, fixed));
        }
        i = i + 1;
        proof {
            assert(texts@.take(i as int).drop_last() =~= texts@.take(i as int - 1));
            assert(texts@.take(i as int).last() == texts@[i as int - 1]);
            assert(fix_views(fixes@) =~= spec_collect_fixes(
                texts@.take(i as int),
                threshold_millis as int,
            ));
        }
    }
    proof {
        assert(texts@.take(texts@.len() as int) =~= texts@);
    }
    fixes
}

/// A field enumeration in which the detector repairs nothing yields an
/// empty commit batch, so the file is left untouched.
pub proof fn lemma_no_fixes_empty(texts: Seq<String>, threshold_millis: int)
    requires
        forall|i: int|
            0 <= i < texts.len() ==> spec_fix_mojibake(texts[i]@, threshold_millis) is None,
    ensures
        spec_collect_fixes(texts, threshold_millis).len() == 0,
    decreases texts.len(),
{
    if texts.len() > 0 {
        assert(texts.last() == texts[texts.len() - 1]);
        assert(forall|i: int|
            0 <= i < texts.drop_last().len() ==> texts.drop_last()[i] == texts[i]);
        lemma_no_fixes_empty(texts.drop_last(), threshold_millis);
    }
}

/// Completeness of the commit batch: every field whose text the detector
/// repairs contributes exactly its repaired text, keyed by its position.
pub proof fn lemma_fixes_complete(texts: Seq<String>, threshold_millis: int, i: int)
    requires
        0 <= i < texts.len(),
        spec_fix_mojibake(texts[i]@, threshold_millis) is Some,
    ensures
        spec_collect_fixes(texts, threshold_millis).contains(
            (i, spec_fix_mojibake(texts[i]@, threshold_millis)->Some_0),
        ),
    decreases texts.len(),
{
    let all = spec_collect_fixes(texts, threshold_millis);
    let rest = spec_collect_fixes(texts.drop_last(), threshold_millis);
    let fix = (i, spec_fix_mojibake(texts[i]@, threshold_millis)->Some_0);
    if i == texts.len() - 1 {
        assert(texts.last() == texts[i]);
        assert(all[rest.len() as int] == fix);
        assert(all.contains(fix));
    } else {
        lemma_fixes_complete(texts.drop_last(), threshold_millis, i);
        assert(texts.drop_last()[i] == texts[i]);
        let k = choose|k: int| 0 <= k < rest.len() && rest[k] == fix;
        assert(all[k] == fix);
        assert(all.contains(fix));
    }
}

/// Soundness of the commit batch: every collected fix comes from a field
/// whose text the detector repairs to exactly that text; no other field is
/// touched.
pub proof fn lemma_fixes_sound(texts: Seq<String>, threshold_millis: int, j: int)
    requires
        0 <= j < spec_collect_fixes(texts, threshold_millis).len(),
    ensures
        ({
            let fix = spec_collect_fixes(texts, threshold_millis)[j];
            0 <= fix.0 < texts.len() && spec_fix_mojibake(texts[fix.0]@, threshold_millis) == Some(
                fix.1,
            )
        }),
    decreases texts.len(),
{
    if texts.len() > 0 {
        let rest = spec_collect_fixes(texts.drop_last(), threshold_millis);
        if j < rest.len() {
            lemma_fixes_sound(texts.drop_last(), threshold_millis, j);
            let fix = rest[j];
            assert(texts.drop_last()[fix.0] == texts[fix.0]);
        } else {
            assert(texts.last() == texts[texts.len() - 1]);
        }
    }
}

} // verus!
