//! The placeholder grammar and the template compiler.
//!
//! A placeholder is `<name:type>`, with `name` in `[a-zA-Z]+` and `type` in
//! `[a-z]+`. Placeholders are found left to right without overlap; every
//! other character is copied, escaped where the matcher syntax would give it a
//! meaning. Unrecognised types fall back to the integer sub-pattern, and text
//! that looks like a malformed placeholder stays literal.

use vstd::prelude::*;

verus! {

pub open spec fn is_name_char(c: char) -> bool {
    ('a' <= c && c <= 'z') || ('A' <= c && c <= 'Z')
}

pub open spec fn is_type_char(c: char) -> bool {
    'a' <= c && c <= 'z'
}

/// Characters that must be escaped to match literally.
pub open spec fn is_meta(c: char) -> bool {
    c == '\\' || c == '.' || c == '+' || c == '*' || c == '?' || c == '(' || c == ')' || c
        == '|' || c == '[' || c == ']' || c == '{' || c == '}' || c == '^' || c == '$' || c
        == '#' || c == '&' || c == '-' || c == '~' || c == '/'
}

/// End of the run of name characters that starts at `i`.
pub open spec fn name_run_end(t: Seq<char>, i: int) -> int
    decreases t.len() - i,
{
    if 0 <= i < t.len() && is_name_char(t[i]) {
        name_run_end(t, i + 1)
    } else {
        i
    }
}

/// End of the run of type characters that starts at `i`.
pub open spec fn type_run_end(t: Seq<char>, i: int) -> int
    decreases t.len() - i,
{
    if 0 <= i < t.len() && is_type_char(t[i]) {
        type_run_end(t, i + 1)
    } else {
        i
    }
}

/// Where a placeholder starts at `i`: the index of its `:` and of its `>`.
pub open spec fn placeholder_at(t: Seq<char>, i: int) -> Option<(int, int)> {
    if 0 <= i < t.len() && t[i] == '<' {
        let c = name_run_end(t, i + 1);
        if i + 1 < c < t.len() && t[c] == ':' {
            let g = type_run_end(t, c + 1);
            if c + 1 < g < t.len() && t[g] == '>' {
                Some((c, g))
            } else {
                None
            }
        } else {
            None
        }
    } else {
        None
    }
}

pub open spec fn int_pattern() -> Seq<char> {
    "[0-9]+"@
}

pub open spec fn slug_pattern() -> Seq<char> {
    "[a-z0-9]+(?:-[a-z0-9]+)*"@
}

pub open spec fn uuid_pattern() -> Seq<char> {
    "[0-9a-fA-F]{8}\\-[0-9a-fA-F]{4}\\-[0-9a-fA-F]{4}\\-[0-9a-fA-F]{4}\\-[0-9a-fA-F]{12}"@
}

/// The sub-pattern for a placeholder type; unknown types match as integers.
pub open spec fn type_pattern(ty: Seq<char>) -> Seq<char> {
    if ty == "slug"@ {
        slug_pattern()
    } else if ty == "uuid"@ {
        uuid_pattern()
    } else {
        int_pattern()
    }
}

pub open spec fn escape_char(c: char) -> Seq<char> {
    if is_meta(c) {
        seq!['\\', c]
    } else {
        seq![c]
    }
}

pub open spec fn capture_group(name: Seq<char>, ty: Seq<char>) -> Seq<char> {
    "(?<"@ + name + ">"@ + type_pattern(ty) + ")"@
}

/// The matcher text for the template from index `i` on.
pub open spec fn body_from(t: Seq<char>, i: int) -> Seq<char>
    decreases t.len() - i,
{
    if i < 0 || i >= t.len() {
        seq![]
    } else {
        match placeholder_at(t, i) {
            Some((c, g)) => capture_group(t.subrange(i + 1, c), t.subrange(c + 1, g)) + body_from(
                t,
                g + 1,
            ),
            None => escape_char(t[i]) + body_from(t, i + 1),
        }
    }
}

/// The placeholder names of the template from index `i` on, in order.
pub open spec fn names_from(t: Seq<char>, i: int) -> Seq<Seq<char>>
    decreases t.len() - i,
{
    if i < 0 || i >= t.len() {
        seq![]
    } else {
        match placeholder_at(t, i) {
            Some((c, g)) => seq![t.subrange(i + 1, c)] + names_from(t, g + 1),
            None => names_from(t, i + 1),
        }
    }
}

/// The anchored matcher of a template: the whole path, with at most one
/// trailing separator.
pub open spec fn compiled_pattern_of(t: Seq<char>) -> Seq<char> {
    "^"@ + body_from(t, 0) + "\\/?$"@
}

pub open spec fn names_of(t: Seq<char>) -> Seq<Seq<char>> {
    names_from(t, 0)
}

pub open spec fn names_view(v: Seq<String>) -> Seq<Seq<char>> {
    v.map_values(|s: String| s@)
}

fn is_name_char_exec(c: char) -> (r: bool)
    ensures
        r == is_name_char(c),
{
    ('a' <= c && c <= 'z') || ('A' <= c && c <= 'Z')
}

fn is_type_char_exec(c: char) -> (r: bool)
    ensures
        r == is_type_char(c),
{
    'a' <= c && c <= 'z'
}

fn is_meta_exec(c: char) -> (r: bool)
    ensures
        r == is_meta(c),
{
    c == '\\' || c == '.' || c == '+' || c == '*' || c == '?' || c == '(' || c == ')' || c
        == '|' || c == '[' || c == ']' || c == '{' || c == '}' || c == '^' || c == '$' || c
        == '#' || c == '&' || c == '-' || c == '~' || c == '/'
}

fn name_run_end_exec(t: &str, n: usize, i: usize) -> (r: usize)
    requires
        n == t@.len(),
        i <= n,
    ensures
        r == name_run_end(t@, i as int),
        i <= r <= n,
    decreases n - i,
{
    if i < n && is_name_char_exec(t.get_char(i)) {
        name_run_end_exec(t, n, i + 1)
    } else {
        i
    }
}

fn type_run_end_exec(t: &str, n: usize, i: usize) -> (r: usize)
    requires
        n == t@.len(),
        i <= n,
    ensures
        r == type_run_end(t@, i as int),
        i <= r <= n,
    decreases n - i,
{
    if i < n && is_type_char_exec(t.get_char(i)) {
        type_run_end_exec(t, n, i + 1)
    } else {
        i
    }
}

fn placeholder_at_exec(t: &str, n: usize, i: usize) -> (r: Option<(usize, usize)>)
    requires
        n == t@.len(),
        i < n,
    ensures
        match r {
            Some((c, g)) => placeholder_at(t@, i as int) == Some((c as int, g as int)),
            None => placeholder_at(t@, i as int) is None,
        },
{
    if t.get_char(i) != '<' {
        return None;
    }
    let c = name_run_end_exec(t, n, i + 1);
    if !(i + 1 < c && c < n && t.get_char(c) == ':') {
        return None;
    }
    let g = type_run_end_exec(t, n, c + 1);
    if c + 1 < g && g < n && t.get_char(g) == '>' {
        Some((c, g))
    } else {
        None
    }
}

/// Whether two strings hold the same characters.
fn same_chars(a: &str, b: &str) -> (r: bool)
    ensures
        r == (a@ == b@),
{
    let n = a.unicode_len();
    if n != b.unicode_len() {
        return false;
    }
    let mut i: usize = 0;
    while i < n
        invariant
            n == a@.len() == b@.len(),
            i <= n,
            forall|k: int| 0 <= k < i ==> a@[k] == b@[k],
        decreases n - i,
    {
        if a.get_char(i) != b.get_char(i) {
            return false;
        }
        i = i + 1;
    }
    assert(a@ =~= b@);
    true
}

fn type_pattern_exec(ty: &str) -> (r: &'static str)
    ensures
        r@ == type_pattern(ty@),
{
    if same_chars(ty, "slug") {
        "[a-z0-9]+(?:-[a-z0-9]+)*"
    } else if same_chars(ty, "uuid") {
        "[0-9a-fA-F]{8}\\-[0-9a-fA-F]{4}\\-[0-9a-fA-F]{4}\\-[0-9a-fA-F]{4}\\-[0-9a-fA-F]{12}"
    } else {
        "[0-9]+"
    }
}

/// Compiles a route template into its anchored matcher text and the names of
/// its placeholders, in the order in which they appear.
pub fn compile_template(t: &str) -> (r: (String, Vec<String>))
    ensures
        r.0@ == compiled_pattern_of(t@),
        names_view(r.1@) == names_of(t@),
{
    let n = t.unicode_len();
    let mut out = String::new();
    out.append("^");
    let mut names: Vec<String> = Vec::new();
    let mut i: usize = 0;
    while i < n
        invariant
            n == t@.len(),
            i <= n,
            out@ + body_from(t@, i as int) == "^"@ + body_from(t@, 0),
            names_view(names@) + names_from(t@, i as int) == names_from(t@, 0),
        decreases n - i,
    {
        let ghost out0 = out@;
        let ghost names0 = names_view(names@);
        match placeholder_at_exec(t, n, i) {
            Some((c, g)) => {
                let name = t.substring_char(i + 1, c);
                let ty = t.substring_char(c + 1, g);
                out.append("(?<");
                out.append(name);
                out.append(">");
                out.append(type_pattern_exec(ty));
                out.append(")");
                names.push(String::from_str(name));
                proof {
                    let piece = capture_group(t@.subrange(i + 1, c as int), t@.subrange(c + 1, g as int));
                    assert(out@ =~= out0 + piece);
                    assert(out0 + (piece + body_from(t@, g + 1)) =~= out@ + body_from(t@, g + 1));
                    assert(names_view(names@) =~= names0 + seq![t@.subrange(i + 1, c as int)]);
                    assert(names0 + (seq![t@.subrange(i + 1, c as int)] + names_from(t@, g + 1))
                        =~= names_view(names@) + names_from(t@, g + 1));
                }
                i = g + 1;
            },
            None => {
                let ch = t.get_char(i);
                if is_meta_exec(ch) {
                    out.append("\\");
                }
                out.append(t.substring_char(i, i + 1));
                proof {
                    reveal_strlit("\\");
                    assert(out@ =~= out0 + escape_char(t@[i as int]));
                    assert(out0 + (escape_char(t@[i as int]) + body_from(t@, i + 1))
                        =~= out@ + body_from(t@, i + 1));
                }
                i = i + 1;
            },
        }
    }
    out.append("\\/?$");
    proof {
        assert(out@ =~= compiled_pattern_of(t@));
        assert(names_view(names@) =~= names_of(t@));
    }
    (out, names)
}

} // verus!
