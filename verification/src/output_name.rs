//! The name of the file that a job writes. It is the name of the input file
//! where that is free, and else the first free name with a count in round
//! brackets after the stem.

use crate::decimal::{decimal, lemma_decimal_injective, u64_to_decimal};
use vstd::prelude::*;
use vstd::relations::injective_on;
use vstd::set_lib::{lemma_int_range, lemma_len_subset, lemma_map_size, set_int_range};
use vstd::string::StringExecFns;

verus! {

/// The extensions of the files that can be selected for rotation.
pub open spec fn supported_extensions() -> Seq<Seq<char>> {
    seq!["mp4"@, "mkv"@]
}

/// Whether files with this extension can be selected for rotation.
pub fn is_supported_extension(extension: &str) -> (supported: bool)
    ensures
        supported == supported_extensions().contains(extension@),
{
    let mp4 = String::from_str("mp4");
    let mkv = String::from_str("mkv");
    let given = String::from_str(extension);
    let supported = given == mp4 || given == mkv;
    proof {
        let known = supported_extensions();
        assert(known[0] == "mp4"@);
        assert(known[1] == "mkv"@);
    }
    supported
}

/// The `count`-th name that is tried for a file with the given stem and
/// extension: `stem.extension` first, then `stem(1).extension`,
/// `stem(2).extension` and so on.
pub open spec fn candidate(stem: Seq<char>, extension: Seq<char>, count: nat) -> Seq<char> {
    if count == 0 {
        stem + seq!['.'] + extension
    } else {
        stem + seq!['('] + decimal(count) + seq![')', '.'] + extension
    }
}

/// The names in a list.
pub open spec fn names(taken: Seq<String>) -> Set<Seq<char>> {
    Set::new(|name: Seq<char>| exists|i: int| 0 <= i < taken.len() && (#[trigger] taken[i])@ == name)
}

/// Whether `count` is the first count whose candidate name is not taken.
pub open spec fn is_first_free(stem: Seq<char>, extension: Seq<char>, taken: Set<Seq<char>>, count: nat) -> bool {
    &&& !taken.contains(candidate(stem, extension, count))
    &&& forall|earlier: nat|
        earlier < count ==> taken.contains(#[trigger] candidate(stem, extension, earlier))
}

/// Whether `name` is the name that a file with the given stem and extension
/// gets where the names in `taken` are in use: the first candidate that is
/// not among them.
pub open spec fn is_resolved(name: Seq<char>, stem: Seq<char>, extension: Seq<char>, taken: Set<Seq<char>>) -> bool {
    exists|count: nat| #[trigger]
        is_first_free(stem, extension, taken, count) && name == candidate(stem, extension, count)
}

/// Different counts give different names.
pub proof fn lemma_candidate_injective(stem: Seq<char>, extension: Seq<char>, a: nat, b: nat)
    requires
        candidate(stem, extension, a) == candidate(stem, extension, b),
    ensures
        a == b,
{
    let left = candidate(stem, extension, a);
    let right = candidate(stem, extension, b);
    let at = stem.len() as int;
    if a == 0 && b != 0 {
        assert(left[at] == '.');
        assert(right[at] == '(');
    } else if a != 0 && b == 0 {
        assert(left[at] == '(');
        assert(right[at] == '.');
    } else if a != 0 && b != 0 {
        let da = decimal(a);
        let db = decimal(b);
        assert(left.len() == stem.len() + 1 + da.len() + 2 + extension.len());
        assert(right.len() == stem.len() + 1 + db.len() + 2 + extension.len());
        assert(da.len() == db.len());
        assert(left.subrange(at + 1, at + 1 + da.len()) =~= da);
        assert(right.subrange(at + 1, at + 1 + db.len()) =~= db);
        lemma_decimal_injective(a, b);
    }
}

/// Where every candidate below `count` is among the names of a list, the
/// list has at least `count` entries.
pub proof fn lemma_taken_candidates_bounded(stem: Seq<char>, extension: Seq<char>, taken: Seq<String>, count: nat)
    requires
        forall|earlier: nat|
            earlier < count ==> names(taken).contains(#[trigger] candidate(stem, extension, earlier)),
    ensures
        count <= taken.len(),
{
    let views = taken.map_values(|name: String| name@);
    let all = views.to_set();
    let counts = set_int_range(0, count as int);
    let name_of = |k: int| candidate(stem, extension, k as nat);
    let tried = counts.map(name_of);
    lemma_int_range(0, count as int);
    assert(injective_on(name_of, counts)) by {
        assert forall|x: int, y: int|
            counts.contains(x) && counts.contains(y) && #[trigger] name_of(x) == #[trigger] name_of(
                y,
            ) implies x == y by {
            lemma_candidate_injective(stem, extension, x as nat, y as nat);
        }
    }
    lemma_map_size(counts, tried, name_of);
    assert(tried.subset_of(all)) by {
        assert forall|name: Seq<char>| tried.contains(name) implies all.contains(name) by {
            let k = choose|k: int| counts.contains(k) && name_of(k) == name;
            assert(names(taken).contains(candidate(stem, extension, k as nat)));
            let i = choose|i: int| 0 <= i < taken.len() && (#[trigger] taken[i])@ == name;
            assert(views[i] == name);
        }
    }
    views.lemma_cardinality_of_set();
    lemma_len_subset(tried, all);
}

/// The `count`-th name that is tried for a file with the given stem and
/// extension.
pub fn output_file_name(stem: &str, extension: &str, count: u64) -> (name: String)
    ensures
        name@ == candidate(stem@, extension@, count as nat),
{
    proof {
        reveal_strlit("(");
        reveal_strlit(").");
        reveal_strlit(".");
    }
    let mut name = String::from_str(stem);
    if count == 0 {
        name.append(".");
        name.append(extension);
        assert(name@ =~= candidate(stem@, extension@, 0));
    } else {
        name.append("(");
        name.append(u64_to_decimal(count).as_str());
        name.append(").");
        name.append(extension);
        assert(name@ =~= candidate(stem@, extension@, count as nat));
    }
    name
}

/// Whether `name` is in the list.
pub fn is_taken(taken: &Vec<String>, name: &String) -> (found: bool)
    ensures
        found == names(taken@).contains(name@),
{
    let mut index: usize = 0;
    while index < taken.len()
        invariant
            index <= taken.len(),
            forall|i: int| 0 <= i < index ==> (#[trigger] taken[i])@ != name@,
        decreases taken.len() - index,
    {
        if taken[index] == *name {
            return true;
        }
        index += 1;
    }
    false
}

/// The name of the output file for an input file with the given stem and
/// extension, where the names in `taken` are in use: `stem.extension` if
/// that is free, else the name with the lowest count in brackets that is.
pub fn resolve_output_name(stem: &str, extension: &str, taken: &Vec<String>) -> (name: String)
    ensures
        is_resolved(name@, stem@, extension@, names(taken@)),
        !names(taken@).contains(name@),
{
    let mut count: u64 = 0;
    let mut name = output_file_name(stem, extension, count);
    while is_taken(taken, &name)
        invariant
            name@ == candidate(stem@, extension@, count as nat),
            forall|earlier: nat|
                earlier < count ==> names(taken@).contains(
                    #[trigger] candidate(stem@, extension@, earlier),
                ),
        decreases taken.len() - count,
    {
        proof {
            lemma_taken_candidates_bounded(stem@, extension@, taken@, (count + 1) as nat);
        }
        count += 1;
        name = output_file_name(stem, extension, count);
    }
    assert(is_first_free(stem@, extension@, names(taken@), count as nat));
    name
}

} // verus!
