//! File names: what a received file may be called, and what it is called where that
//! name is taken.
//!
//! A received file lands directly in the drop folder. Its name is the last component
//! of the name that was offered, and a number is put behind the stem where a file of
//! that name is there already: `photo.jpg`, `photo (1).jpg`, `photo (2).jpg`.
use crate::text;
use vstd::prelude::*;

verus! {

/// What separates the components of a path, on any system that takes part.
pub open spec fn is_separator(c: char) -> bool {
    c == '/' || c == '\\'
}

/// What follows the last separator.
pub open spec fn last_component(s: Seq<char>) -> Seq<char>
    decreases s.len(),
{
    if s.len() == 0 || is_separator(s.last()) {
        Seq::empty()
    } else {
        last_component(s.drop_last()).push(s.last())
    }
}

/// Whether a file of this name can lie in a folder, directly: it is one component, and
/// none that stands for a folder.
pub open spec fn is_plain_name(s: Seq<char>) -> bool {
    &&& s.len() > 0
    &&& s != "."@
    &&& s != ".."@
    &&& forall|i: int| 0 <= i < s.len() ==> !is_separator(#[trigger] s[i]) && s[i] != '\0'
}

/// The name under which a file that is offered as `name` may be stored, if any.
pub open spec fn sanitized(name: Seq<char>) -> Option<Seq<char>> {
    if is_plain_name(last_component(name)) {
        Some(last_component(name))
    } else {
        None
    }
}

/// The position of the last dot, or -1.
pub open spec fn last_dot(s: Seq<char>) -> int
    decreases s.len(),
{
    if s.len() == 0 {
        -1
    } else if s.last() == '.' {
        s.len() - 1
    } else {
        last_dot(s.drop_last())
    }
}

/// Where the extension starts: at the last dot, unless that opens the name.
pub open spec fn stem_len(s: Seq<char>) -> nat {
    if last_dot(s) > 0 {
        last_dot(s) as nat
    } else {
        s.len()
    }
}

/// The `n`-th name to try for a file: its own, then `stem (n).ext`.
pub open spec fn numbered(name: Seq<char>, n: nat) -> Seq<char> {
    if n == 0 {
        name
    } else {
        name.take(stem_len(name) as int) + " ("@ + text::decimal(n) + ")"@ + name.skip(
            stem_len(name) as int,
        )
    }
}

/// Whether `name` is among `taken`.
pub open spec fn is_taken(name: Seq<char>, taken: Seq<String>) -> bool {
    exists|i: int| 0 <= i < taken.len() && (#[trigger] taken[i])@ == name
}

proof fn lemma_last_component(s: Seq<char>, from: int)
    requires
        0 <= from <= s.len(),
        forall|i: int| from <= i < s.len() ==> !is_separator(#[trigger] s[i]),
        from > 0 ==> is_separator(s[from - 1]),
    ensures
        last_component(s) == s.skip(from),
    decreases s.len(),
{
    if from == s.len() {
        assert(s.skip(from) =~= Seq::empty());
    } else {
        let t = s.drop_last();
        assert forall|i: int| from <= i < t.len() implies !is_separator(#[trigger] t[i]) by {
            assert(t[i] == s[i]);
        }
        lemma_last_component(t, from);
        assert(s.skip(from) =~= t.skip(from).push(s.last()));
    }
}

/// The name under which a file that is offered as `name` may be stored: the last
/// component, unless that is no name for a file.
pub fn sanitize_filename(name: &str) -> (r: Option<String>)
    ensures
        match sanitized(name@) {
            Some(plain) => r matches Some(s) && s@ == plain,
            None => r is None,
        },
{
    let len: usize = name.unicode_len();
    let mut from: usize = len;
    let mut clean: bool = true;
    while from > 0
        invariant_except_break
            forall|i: int| from <= i < len ==> !is_separator(#[trigger] name@[i]),
        invariant
            from <= len,
            len == name@.len(),
            clean <==> forall|i: int| from <= i < len ==> #[trigger] name@[i] != '\0',
        ensures
            forall|i: int| from <= i < len ==> !is_separator(#[trigger] name@[i]),
            from > 0 ==> is_separator(name@[from - 1]),
        decreases from,
    {
        let c = name.get_char(from - 1);
        if c == '/' || c == '\\' {
            break;
        }
        if c == '\0' {
            clean = false;
        }
        from = from - 1;
    }
    let last = name.substring_char(from, len);
    proof {
        lemma_last_component(name@, from as int);
        assert(last@ =~= name@.skip(from as int));
        assert(clean <==> forall|i: int| 0 <= i < last@.len() ==> #[trigger] last@[i] != '\0') by {
            assert forall|i: int| 0 <= i < last@.len() implies last@[i] == name@[i + from] by {}
            if !clean {
                let j = choose|j: int| from <= j < len && #[trigger] name@[j] == '\0';
                assert(last@[j - from] == '\0');
            }
        }
    }
    if last.unicode_len() == 0 || !clean || text::same(last, ".") || text::same(last, "..") {
        None
    } else {
        Some(String::from_str(last))
    }
}

proof fn lemma_last_dot(s: Seq<char>, at: int)
    requires
        -1 <= at < s.len(),
        at >= 0 ==> s[at] == '.',
        forall|i: int| at < i < s.len() ==> #[trigger] s[i] != '.',
    ensures
        last_dot(s) == at,
    decreases s.len(),
{
    if s.len() > 0 && at < s.len() - 1 {
        lemma_last_dot(s.drop_last(), at);
    }
}

proof fn lemma_stem_len(s: Seq<char>)
    ensures
        -1 <= last_dot(s) < s.len(),
        stem_len(s) <= s.len(),
        last_dot(s) >= 0 ==> s[last_dot(s)] == '.',
    decreases s.len(),
{
    if s.len() > 0 {
        lemma_stem_len(s.drop_last());
    }
}

/// The `n`-th name to try for a file called `name`.
pub fn numbered_name(name: &str, n: u64) -> (r: String)
    ensures
        r@ == numbered(name@, n as nat),
{
    if n == 0 {
        return String::from_str(name);
    }
    let len: usize = name.unicode_len();
    let mut at: usize = len;
    while at > 0
        invariant_except_break
            forall|i: int| at <= i < len ==> #[trigger] name@[i] != '.',
        invariant
            at <= len,
            len == name@.len(),
        ensures
            at > 0 ==> name@[at - 1] == '.',
            forall|i: int| at <= i < len ==> #[trigger] name@[i] != '.',
        decreases at,
    {
        if name.get_char(at - 1) == '.' {
            break;
        }
        at = at - 1;
    }
    proof {
        lemma_last_dot(name@, at - 1);
    }
    let stem: usize = if at > 1 { at - 1 } else { len };
    let mut r = String::from_str(name.substring_char(0, stem));
    r.append(" (");
    text::push_decimal(&mut r, n);
    r.append(")");
    r.append(name.substring_char(stem, len));
    proof {
        assert(name@.subrange(0, stem as int) =~= name@.take(stem as int));
        assert(name@.subrange(stem as int, len as int) =~= name@.skip(stem as int));
    }
    r
}

/// Different numbers give different names.
pub proof fn law_numbered_names_differ(name: Seq<char>, a: nat, b: nat)
    requires
        numbered(name, a) == numbered(name, b),
    ensures
        a == b,
{
    lemma_stem_len(name);
    let (x, y) = (numbered(name, a), numbered(name, b));
    let k = stem_len(name) as int;
    reveal_strlit(" (");
    reveal_strlit(")");
    assert(a > 0 ==> x.len() == name.len() + 3 + text::decimal(a).len());
    assert(b > 0 ==> y.len() == name.len() + 3 + text::decimal(b).len());
    if a > 0 && b > 0 {
        assert(x.subrange(k + 2, k + 2 + text::decimal(a).len()) =~= text::decimal(a));
        assert(y.subrange(k + 2, k + 2 + text::decimal(b).len()) =~= text::decimal(b));
        text::law_decimal_is_injective(a, b);
    }
}

/// Whether one of the `taken` names is `name`.
fn contains_name(taken: &Vec<String>, name: &String) -> (r: bool)
    ensures
        r == is_taken(name@, taken@),
{
    let mut i: usize = 0;
    while i < taken.len()
        invariant
            i <= taken.len(),
            forall|j: int| 0 <= j < i ==> (#[trigger] taken@[j])@ != name@,
        decreases taken.len() - i,
    {
        if taken[i] == *name {
            return true;
        }
        i = i + 1;
    }
    false
}

/// Among more candidates than there are taken names, one is free.
proof fn lemma_one_is_free(name: Seq<char>, taken: Seq<String>)
    ensures
        exists|n: nat| n <= taken.len() && !is_taken(#[trigger] numbered(name, n), taken),
{
    if forall|n: nat| n <= taken.len() ==> is_taken(#[trigger] numbered(name, n), taken) {
        let candidates = Seq::new(taken.len() + 1, |n: int| numbered(name, n as nat));
        let names = taken.map_values(|s: String| s@);
        assert forall|i: int, j: int|
            0 <= i < candidates.len() && 0 <= j < candidates.len() && i != j implies candidates[i]
            != candidates[j] by {
            if candidates[i] == candidates[j] {
                law_numbered_names_differ(name, i as nat, j as nat);
            }
        }
        assert(candidates.no_duplicates());
        candidates.unique_seq_to_set();
        names.lemma_cardinality_of_set();
        assert(candidates.to_set().subset_of(names.to_set())) by {
            assert forall|c: Seq<char>| candidates.to_set().contains(c) implies names.to_set().contains(
                c,
            ) by {
                let n = choose|n: int| 0 <= n < candidates.len() && candidates[n] == c;
                assert(is_taken(numbered(name, n as nat), taken));
                let i = choose|i: int| 0 <= i < taken.len() && (#[trigger] taken[i])@ == c;
                assert(names[i] == c);
            }
        }
        vstd::set_lib::lemma_len_subset(candidates.to_set(), names.to_set());
        assert(false);
    }
}

/// Whether `r` is the first of the numbered names of `name` that is not `taken`.
pub open spec fn is_first_free(name: Seq<char>, taken: Seq<String>, r: Seq<char>) -> bool {
    &&& !is_taken(r, taken)
    &&& exists|n: nat|
        {
            &&& r == #[trigger] numbered(name, n)
            &&& forall|m: nat| m < n ==> is_taken(#[trigger] numbered(name, m), taken)
        }
}

/// The name that a file called `name` gets in a folder where the names in `taken` are
/// in use: the first one of its numbered names that is free.
pub fn free_name(name: &str, taken: &Vec<String>) -> (r: String)
    ensures
        is_first_free(name@, taken@, r@),
{
    let mut n: u64 = 0;
    let mut candidate = numbered_name(name, n);
    while contains_name(taken, &candidate)
        invariant
            n <= taken.len(),
            candidate@ == numbered(name@, n as nat),
            forall|m: nat| m < n ==> is_taken(#[trigger] numbered(name@, m), taken@),
        decreases taken.len() - n,
    {
        proof {
            lemma_one_is_free(name@, taken@);
            let free = choose|f: nat|
                f <= taken.len() && !is_taken(#[trigger] numbered(name@, f), taken@);
            assert(free > n);
        }
        n = n + 1;
        candidate = numbered_name(name, n);
    }
    candidate
}

/// The name under which a file that a peer offers as `offered` is stored in a folder
/// where the names in `taken` are in use. Whatever the peer offers, the file lands
/// directly in the folder, and replaces nothing there. `None` where the offered name
/// is no name for a file.
pub fn stored_name(offered: &str, taken: &Vec<String>) -> (r: Option<String>)
    ensures
        match sanitized(offered@) {
            Some(plain) => r matches Some(s) && is_first_free(plain, taken@, s@),
            None => r is None,
        },
        r matches Some(s) ==> is_plain_name(s@) && !is_taken(s@, taken@),
{
    match sanitize_filename(offered) {
        Some(plain) => {
            let name = free_name(plain.as_str(), taken);
            proof {
                let n = choose|n: nat|
                    {
                        &&& name@ == #[trigger] numbered(plain@, n)
                        &&& forall|m: nat| m < n ==> is_taken(#[trigger] numbered(plain@, m), taken@)
                    };
                law_numbered_names_stay_plain(plain@, n);
            }
            Some(name)
        },
        None => None,
    }
}

/// Every name that a plain name is numbered to is a plain name again: a number never
/// moves a file out of its folder.
pub proof fn law_numbered_names_stay_plain(name: Seq<char>, n: nat)
    requires
        is_plain_name(name),
    ensures
        is_plain_name(numbered(name, n)),
{
    if n > 0 {
        lemma_stem_len(name);
        lemma_decimal_is_plain(n);
        let s = numbered(name, n);
        let k = stem_len(name) as int;
        let d = text::decimal(n);
        reveal_strlit(" (");
        reveal_strlit(")");
        reveal_strlit(".");
        reveal_strlit("..");
        assert(s.len() == name.len() + 3 + d.len());
        assert forall|i: int| 0 <= i < s.len() implies !is_separator(#[trigger] s[i]) && s[i]
            != '\0' by {
            if i < k {
                assert(s[i] == name[i]);
            } else if i < k + 2 {
            } else if i < k + 2 + d.len() {
                assert(s[i] == d[i - k - 2]);
            } else if i == k + 2 + d.len() {
                assert(s[i] == ')');
            } else {
                assert(s[i] == name[i - 3 - d.len()]);
            }
        }
    }
}

proof fn lemma_decimal_is_plain(n: nat)
    ensures
        text::decimal(n).len() >= 1,
        forall|i: int|
            0 <= i < text::decimal(n).len() ==> !is_separator(#[trigger] text::decimal(n)[i])
                && text::decimal(n)[i] != '\0',
    decreases n,
{
    if n >= 10 {
        lemma_decimal_is_plain(n / 10);
    }
}

/// A file that is offered under a plain name keeps it, where no file has it yet.
pub proof fn law_plain_names_are_kept(name: Seq<char>, taken: Seq<String>)
    requires
        is_plain_name(name),
        !is_taken(name, taken),
    ensures
        sanitized(name) == Some(name),
        forall|r: Seq<char>| is_first_free(name, taken, r) ==> r == name,
{
    lemma_last_component(name, 0);
    assert(name.skip(0) =~= name);
    assert(numbered(name, 0) == name);
}

/// What a plain name is: not empty, neither of the two names for folders, and without
/// separators and zeros.
pub proof fn law_plain_names_name_files(s: Seq<char>)
    ensures
        is_plain_name(s) <==> {
            &&& s.len() > 0
            &&& s != seq!['.']
            &&& s != seq!['.', '.']
            &&& forall|i: int|
                0 <= i < s.len() ==> #[trigger] s[i] != '/' && s[i] != '\\' && s[i] != '\0'
        },
{
    reveal_strlit(".");
    reveal_strlit("..");
    assert("."@ =~= seq!['.']);
    assert(".."@ =~= seq!['.', '.']);
}

/// Only what follows the last separator counts: whatever folders stand before it, the file is
/// called by that, and where that is no plain name it is called nothing.
pub proof fn law_folders_do_not_count(folders: Seq<char>, separator: char, name: Seq<char>)
    requires
        separator == '/' || separator == '\\',
        forall|i: int| 0 <= i < name.len() ==> #[trigger] name[i] != '/' && name[i] != '\\',
    ensures
        sanitized(folders.push(separator) + name) == sanitized(name),
        sanitized(name) == if is_plain_name(name) {
            Some(name)
        } else {
            None
        },
{
    let whole = folders.push(separator) + name;
    let from = folders.len() + 1;
    assert(whole[from - 1] == separator);
    assert forall|i: int| from <= i < whole.len() implies !is_separator(#[trigger] whole[i]) by {
        assert(whole[i] == name[i - from]);
    }
    lemma_last_component(whole, from as int);
    assert(whole.skip(from as int) =~= name);
    lemma_last_component(name, 0);
    assert(name.skip(0) =~= name);
}

/// A number is put behind the stem of a name, before its extension; a name without one, or
/// with nothing before its only dot, gets it at the end.
pub proof fn law_number_stands_before_the_extension(stem: Seq<char>, ext: Seq<char>, n: nat)
    requires
        n > 0,
        forall|i: int| 0 <= i < ext.len() ==> #[trigger] ext[i] != '.',
    ensures
        stem.len() > 0 ==> numbered(stem + seq!['.'] + ext, n) == stem + " ("@ + text::decimal(n)
            + ")"@ + (seq!['.'] + ext),
        numbered(ext, n) == ext + " ("@ + text::decimal(n) + ")"@,
        numbered(seq!['.'] + ext, n) == (seq!['.'] + ext) + " ("@ + text::decimal(n) + ")"@,
        numbered(stem, 0) == stem,
{
    let name = stem + seq!['.'] + ext;
    assert(name[stem.len() as int] == '.');
    assert forall|i: int| stem.len() < i < name.len() implies #[trigger] name[i] != '.' by {
        assert(name[i] == ext[i - stem.len() - 1]);
    }
    lemma_last_dot(name, stem.len() as int);
    assert(name.take(stem.len() as int) =~= stem);
    assert(name.skip(stem.len() as int) =~= seq!['.'] + ext);
    lemma_last_dot(ext, -1);
    assert(ext.take(ext.len() as int) =~= ext);
    assert(ext + " ("@ + text::decimal(n) + ")"@ + ext.skip(ext.len() as int) =~= ext + " ("@
        + text::decimal(n) + ")"@);
    let hidden = seq!['.'] + ext;
    assert forall|i: int| 0 < i < hidden.len() implies #[trigger] hidden[i] != '.' by {
        assert(hidden[i] == ext[i - 1]);
    }
    lemma_last_dot(hidden, 0);
    assert(hidden.take(hidden.len() as int) =~= hidden);
    assert(hidden + " ("@ + text::decimal(n) + ")"@ + hidden.skip(hidden.len() as int) =~= hidden
        + " ("@ + text::decimal(n) + ")"@);
}

/// The first free number is the one that is used, and no other: where all names before the
/// `n`-th are taken and that is free, the file is called by it.
pub proof fn law_first_free_number_is_used(
    name: Seq<char>,
    taken: Seq<String>,
    n: nat,
    r: Seq<char>,
)
    requires
        forall|m: nat| m < n ==> is_taken(#[trigger] numbered(name, m), taken),
        !is_taken(numbered(name, n), taken),
    ensures
        is_first_free(name, taken, r) <==> r == numbered(name, n),
        is_taken(r, taken) <==> exists|i: int| 0 <= i < taken.len() && (#[trigger] taken[i])@ == r,
{
    if is_first_free(name, taken, r) {
        let k = choose|k: nat|
            {
                &&& r == #[trigger] numbered(name, k)
                &&& forall|m: nat| m < k ==> is_taken(#[trigger] numbered(name, m), taken)
            };
        assert(!(k < n));
        assert(!(n < k));
    }
}

} // verus!
