//! Shared helpers: path construction for the storage layout, fresh
//! record identifiers, and the current wall-clock time.

use vstd::prelude::*;
use vstd::string::StringExecFns;

verus! {

use crate::errors::BudgeyError;

/// Concatenates the given root and name with a '/' in between.
pub fn concat_paths(root: &str, new: &str) -> (r: String)
    ensures
        r@ == root@ + "/"@ + new@,
{
    let mut s = root.to_owned();
    s.append("/");
    s.append(new);
    s
}

/// Appends the given name with a '.json' extension.
pub fn create_json_file_name(name: &str) -> (r: String)
    ensures
        r@ == name@ + ".json"@,
{
    let mut s = name.to_owned();
    s.append(".json");
    s
}

/// Creates the path of a json file with the given root and name.
pub fn create_json_path(root: &str, name: &str) -> (r: String)
    ensures
        r@ == root@ + "/"@ + name@ + ".json"@,
{
    let mut s = root.to_owned();
    s.append("/");
    s.append(name);
    s.append(".json");
    s
}

/// The path of the ledger directory under the given root.
pub fn create_budgey_path(root: &str) -> (r: String)
    ensures
        r@ == root@ + "/budgey/"@,
{
    let mut s = root.to_owned();
    s.append("/budgey/");
    s
}

/// Whether some string in `names` reads as `name`.
pub open spec fn contains_name(names: Seq<String>, name: Seq<char>) -> bool {
    exists|i: int| 0 <= i < names.len() && names[i]@ == name
}

/// Whether the strings in `names` all read differently.
pub open spec fn unique_names(names: Seq<String>) -> bool {
    forall|i: int, j: int| 0 <= i < j < names.len() ==> names[i]@ != names[j]@
}

/// Whether two string slices read the same.
pub fn str_eq(a: &str, b: &str) -> (r: bool)
    ensures
        r == (a@ == b@),
{
    let owned_a = a.to_owned();
    let owned_b = b.to_owned();
    owned_a == owned_b
}

/// Whether `names` holds a string reading as `name`.
pub fn vec_contains_name(names: &Vec<String>, name: &str) -> (r: bool)
    ensures
        r == contains_name(names@, name@),
{
    let key: String = name.to_owned();
    let mut i: usize = 0;
    while i < names.len()
        invariant
            i <= names.len(),
            key@ == name@,
            forall|j: int| 0 <= j < i ==> (#[trigger] names@[j])@ != name@,
        decreases names.len() - i,
    {
        if names[i] == key {
            return true;
        }
        i = i + 1;
    }
    false
}

/// An element-for-element copy of a vector of strings.
pub(crate) fn clone_strings(names: &Vec<String>) -> (r: Vec<String>)
    ensures
        r@ == names@,
{
    let mut r: Vec<String> = Vec::new();
    let mut i: usize = 0;
    while i < names.len()
        invariant
            i <= names.len(),
            r@ == names@.subrange(0, i as int),
        decreases names.len() - i,
    {
        r.push(names[i].clone());
        assert(r@ =~= names@.subrange(0, i as int + 1));
        i = i + 1;
    }
    assert(r@ =~= names@);
    r
}

/// The strings of `names` that do not read as `name`, in order.
pub(crate) fn filter_out_name(names: &Vec<String>, name: &str) -> (r: Vec<String>)
    ensures
        r@ == names@.filter(|s: String| s@ != name@),
{
    let ghost pred = |s: String| s@ != name@;
    let key: String = name.to_owned();
    let mut r: Vec<String> = Vec::new();
    let mut i: usize = 0;
    while i < names.len()
        invariant
            i <= names.len(),
            key@ == name@,
            r@ == names@.subrange(0, i as int).filter(pred),
            pred == (|s: String| s@ != name@),
        decreases names.len() - i,
    {
        proof {
            let prefix = names@.subrange(0, i as int);
            let element = names@[i as int];
            assert(names@.subrange(0, i as int + 1) =~= prefix + seq![element]);
            Seq::filter_distributes_over_add(prefix, seq![element], pred);
            reveal_with_fuel(Seq::<String>::filter, 2);
            assert(seq![element].drop_last() =~= Seq::<String>::empty());
            if pred(element) {
                assert(seq![element].filter(pred) =~= seq![element]);
            } else {
                assert(seq![element].filter(pred) =~= Seq::<String>::empty());
            }
        }
        if !(names[i] == key) {
            r.push(names[i].clone());
            assert(r@ =~= names@.subrange(0, i as int).filter(pred) + seq![names@[i as int]]);
        }
        i = i + 1;
    }
    proof {
        assert(names@.subrange(0, names@.len() as int) =~= names@);
    }
    r
}

/// Filtering keeps the remaining names pairwise distinct.
pub proof fn lemma_filter_keeps_distinct_names(names: Seq<String>, pred: spec_fn(String) -> bool)
    requires
        unique_names(names),
    ensures
        unique_names(names.filter(pred)),
    decreases names.len(),
{
    reveal(Seq::filter);
    if names.len() > 0 {
        let rest = names.drop_last();
        assert(unique_names(rest));
        lemma_filter_keeps_distinct_names(rest, pred);
        let filtered_rest = rest.filter(pred);
        assert forall|i: int| 0 <= i < filtered_rest.len() implies (#[trigger] filtered_rest[i])@
            != names.last()@ by {
            assert(filtered_rest.contains(filtered_rest[i]));
            rest.lemma_filter_contains_rev(pred, filtered_rest[i]);
            let k = choose|k: int| 0 <= k < rest.len() && rest[k] == filtered_rest[i];
            assert(names[k]@ != names[names.len() - 1]@);
        }
    }
}

/// A name every reading of which the filter keeps is still present
/// after filtering.
pub proof fn lemma_filter_keeps_contains(
    names: Seq<String>,
    pred: spec_fn(String) -> bool,
    target: Seq<char>,
)
    requires
        contains_name(names, target),
        forall|s: String| s@ == target ==> #[trigger] pred(s),
    ensures
        contains_name(names.filter(pred), target),
{
    let i = choose|i: int| 0 <= i < names.len() && names[i]@ == target;
    names.lemma_filter_contains(pred, i);
    let filtered = names.filter(pred);
    let j = choose|j: int| 0 <= j < filtered.len() && filtered[j] == names[i];
    assert(filtered[j]@ == target);
}

/// The seconds elapsed since the Unix epoch, read from the wall clock.
///
/// Relies on `std::time::SystemTime::now` and
/// `SystemTime::duration_since`: `duration_since(UNIX_EPOCH)` yields the
/// elapsed duration, or an error when the clock reads earlier than the
/// epoch. Nothing is promised of the value, which depends on the clock.
#[verifier::external_body]
pub fn get_current_timestamp() -> Result<u64, BudgeyError> {
    match std::time::SystemTime::now().duration_since(std::time::SystemTime::UNIX_EPOCH) {
        Ok(elapsed) => Ok(elapsed.as_secs()),
        Err(_) => Err(BudgeyError::IOFailure),
    }
}

/// A fresh 21-character identifier for a record or budget.
///
/// Relies on `nanoid::format` with the crate's default URL-safe
/// alphabet (64 ASCII characters) and default secure generator: it
/// returns only once the identifier holds exactly the requested 21
/// characters, all drawn from that alphabet. The result depends on a
/// random source, so nothing more can be promised of it.
#[verifier::external_body]
pub(crate) fn fresh_nanoid() -> (r: String)
    ensures
        r@.len() == 21,
{
    nanoid::format(nanoid::rngs::default, &nanoid::alphabet::SAFE, 21)
}

} // verus!
