//! `SNClassifySoundRequest` support: the built-in classifier identifiers and
//! the label list a request reports.

use vstd::prelude::*;

use crate::codes::classifier_identifier;

verus! {

/// Supertrait that marks the library's request types.
pub trait Sealed {}

/// Marker trait for types that model Apple's `SNRequest` protocol.
pub trait AnalysisRequest: Sealed {}

/// Apple's built-in sound classifier identifiers.
#[derive(Debug, Clone, Copy, PartialEq, Eq, Structural)]
pub enum ClassifierIdentifier {
    Version1,
}

/// The bridge's code of each built-in classifier.
pub open spec fn classifier_code(c: ClassifierIdentifier) -> i32 {
    match c {
        ClassifierIdentifier::Version1 => classifier_identifier::VERSION1,
    }
}

impl ClassifierIdentifier {
    /// The bridge's code of this classifier.
    pub fn as_ffi(self) -> (code: i32)
        ensures
            code == classifier_code(self),
    {
        match self {
            Self::Version1 => classifier_identifier::VERSION1,
        }
    }
}

/// The labels among `entries` that are present, in their order; an absent
/// entry (a null string from the framework) is skipped.
pub open spec fn present_labels(entries: Seq<Option<String>>) -> Seq<String>
    decreases entries.len(),
{
    if entries.len() == 0 {
        Seq::empty()
    } else {
        let rest = present_labels(entries.drop_last());
        match entries.last() {
            Some(label) => rest.push(label),
            None => rest,
        }
    }
}

/// The label list of a request from the framework's entries: the present
/// ones, in order.
pub fn labels_from_entries(entries: Vec<Option<String>>) -> (labels: Vec<String>)
    ensures
        labels@ == present_labels(entries@),
{
    let mut labels: Vec<String> = Vec::new();
    let n = entries.len();
    let mut i: usize = 0;
    while i < n
        invariant
            n == entries@.len(),
            i <= n,
            labels@ == present_labels(entries@.take(i as int)),
        decreases n - i,
    {
        assert(entries@.take(i as int + 1).drop_last() =~= entries@.take(i as int));
        match &entries[i] {
            Some(label) => labels.push(label.clone()),
            None => {},
        }
        i = i + 1;
    }
    assert(entries@.take(n as int) =~= entries@);
    labels
}

/// A label list never holds more labels than there were entries, and holds
/// exactly one per entry when every entry is present.
pub proof fn lemma_present_labels_len(entries: Seq<Option<String>>)
    ensures
        present_labels(entries).len() <= entries.len(),
        (forall|i: int| 0 <= i < entries.len() ==> #[trigger] entries[i] is Some) ==> present_labels(
            entries,
        ).len() == entries.len(),
    decreases entries.len(),
{
    if entries.len() > 0 {
        lemma_present_labels_len(entries.drop_last());
        if forall|i: int| 0 <= i < entries.len() ==> #[trigger] entries[i] is Some {
            assert forall|i: int| 0 <= i < entries.drop_last().len() implies #[trigger] entries.drop_last()[i] is Some by {
                assert(entries[i] is Some);
            }
            assert(entries[entries.len() - 1] is Some);
        }
    }
}

/// The label list is the present entries' labels, in order: keeping the
/// present entries and taking their labels gives exactly the list.
pub proof fn lemma_present_labels_are_present_entries(entries: Seq<Option<String>>)
    ensures
        present_labels(entries) == entries.filter(|e: Option<String>| e is Some).map_values(
            |e: Option<String>| e.unwrap(),
        ),
    decreases entries.len(),
{
    reveal_with_fuel(Seq::<_>::filter, 1);
    let pred = |e: Option<String>| e is Some;
    let f = |e: Option<String>| e.unwrap();
    if entries.len() == 0 {
        assert(entries.filter(pred) =~= Seq::<Option<String>>::empty());
        assert(entries.filter(pred).map_values(f) =~= Seq::<String>::empty());
    } else {
        lemma_present_labels_are_present_entries(entries.drop_last());
        let sub = entries.drop_last().filter(pred);
        if entries.last() is Some {
            assert(entries.filter(pred) == sub.push(entries.last()));
            assert(sub.push(entries.last()).map_values(f) =~= sub.map_values(f).push(
                entries.last().unwrap(),
            ));
        } else {
            assert(entries.filter(pred) == sub);
        }
    }
}

/// When every entry is present, the label list holds each entry's own label
/// at the entry's position.
pub proof fn lemma_all_present_labels_kept(entries: Seq<Option<String>>)
    requires
        forall|i: int| 0 <= i < entries.len() ==> #[trigger] entries[i] is Some,
    ensures
        present_labels(entries).len() == entries.len(),
        forall|i: int|
            0 <= i < entries.len() ==> #[trigger] present_labels(entries)[i] == entries[i].unwrap(),
    decreases entries.len(),
{
    if entries.len() > 0 {
        let rest = entries.drop_last();
        assert forall|i: int| 0 <= i < rest.len() implies #[trigger] rest[i] is Some by {
            assert(entries[i] is Some);
        }
        lemma_all_present_labels_kept(rest);
        assert(entries[entries.len() - 1] is Some);
        assert forall|i: int| 0 <= i < entries.len() implies #[trigger] present_labels(entries)[i]
            == entries[i].unwrap() by {
            if i < entries.len() - 1 {
                assert(present_labels(rest)[i] == rest[i].unwrap());
            }
        }
    }
}

} // verus!
