//! The catalog of OCaml demos offered by the page, and the source
//! concatenation for demos made of several `.ml` files.
//!
//! A demo may carry auxiliary files beside its main source. Before running,
//! each auxiliary file is preceded by a `let __module = "<Stem>"` directive
//! naming its module (the file name without `.ml`, first character in upper
//! case), and the main source by `let __module = "Main"`. A demo without
//! auxiliary files runs its main source unchanged.

use vstd::prelude::*;
use crate::text::{append_str, ends_with_newline, push_char, range_eq, str_chars, str_ends_with_newline, str_eq, string_of};

verus! {

/// One auxiliary `.ml` file shipped beside a demo's main source. `name` is
/// a bare file name such as `"math.ml"`.
pub struct AuxFile {
    pub name: &'static str,
    pub source: &'static str,
}

/// Group of a demo in the dropdown: the substantive demos, or the one-line
/// `canonical-*` programs.
#[derive(Clone, Copy, Debug, PartialEq, Eq, Structural)]
pub enum DemoCategory {
    Standard,
    Minimal,
}

/// One demo of the catalog.
pub struct Demo {
    pub name: &'static str,
    pub source: &'static str,
    pub interactive: bool,
    pub description: &'static str,
    pub auxiliary_files: Vec<AuxFile>,
    pub category: DemoCategory,
}

/// What `char::to_uppercase` yields for `c`: its Unicode upper-case mapping.
pub uninterp spec fn uppercase(c: char) -> Seq<char>;

/// The upper-case mapping of `c` (`char::to_uppercase`). The contract
/// claims what std documents: one or more characters, the letters `a`-`z`
/// map to `A`-`Z`, and every other ASCII character maps to itself. For
/// other characters it claims only that the result is the mapping named
/// `uppercase(c)`.
#[verifier::external_body]
fn char_uppercase(c: char) -> (r: Vec<char>)
    ensures
        r@ == uppercase(c),
        r@.len() >= 1,
        'a' <= c <= 'z' ==> r@ == seq![((c as u32) - 32) as char],
        (c as u32) < 128 && !('a' <= c <= 'z') ==> r@ == seq![c],
{
    c.to_uppercase().collect()
}

/// A file name without a trailing `.ml`.
pub open spec fn stem(filename: Seq<char>) -> Seq<char> {
    if filename.len() >= 3 && filename.subrange(filename.len() - 3, filename.len() as int)
        == ".ml"@ {
        filename.take(filename.len() - 3)
    } else {
        filename
    }
}

/// The upper-case form of a character: `a`-`z` become `A`-`Z`, every other
/// ASCII character stays as it is, and any other character takes its
/// Unicode upper-case mapping.
pub open spec fn upper_form(c: char) -> Seq<char> {
    if 'a' <= c <= 'z' {
        seq![((c as u32) - 32) as char]
    } else if (c as u32) < 128 {
        seq![c]
    } else {
        uppercase(c)
    }
}

/// The module name of a file: its stem with the first character in upper
/// case (`math.ml` -> `Math`, `game_state.ml` -> `Game_state`).
pub open spec fn module_name(filename: Seq<char>) -> Seq<char> {
    let s = stem(filename);
    if s.len() == 0 {
        seq![]
    } else {
        upper_form(s[0]) + s.drop_first()
    }
}

/// Strip a trailing `.ml` and upper-case the first character, as the
/// command-line driver names the module of each file.
pub fn capitalize_stem(filename: &str) -> (r: String)
    ensures
        r@ == module_name(filename@),
{
    let cs = str_chars(filename);
    let suffix = str_chars(".ml");
    let n = cs.len();
    let stem_len = if n >= 3 && range_eq(cs.as_slice(), n - 3, n, suffix.as_slice()) {
        n - 3
    } else {
        n
    };
    let ghost st = stem(filename@);
    assert(st =~= cs@.take(stem_len as int));
    if stem_len == 0 {
        return String::new();
    }
    let first = char_uppercase(cs[0]);
    assert(first@ == upper_form(cs@[0]));
    let mut out = String::new();
    let mut i: usize = 0;
    while i < first.len()
        invariant
            i <= first@.len(),
            out@ == first@.take(i as int),
        decreases first@.len() - i,
    {
        push_char(&mut out, first[i]);
        i += 1;
        assert(first@.take(i as int) =~= first@.take(i - 1).push(first@[i - 1]));
    }
    assert(first@.take(first@.len() as int) =~= first@);
    let mut k: usize = 1;
    while k < stem_len
        invariant
            1 <= k <= stem_len <= n,
            n == cs@.len(),
            out@ == first@ + cs@.subrange(1, k as int),
        decreases stem_len - k,
    {
        push_char(&mut out, cs[k]);
        k += 1;
        assert(cs@.subrange(1, k as int) =~= cs@.subrange(1, k - 1).push(cs@[k - 1]));
    }
    assert(st.drop_first() =~= cs@.subrange(1, stem_len as int));
    out
}

/// A module name changes only the first character of the file's stem:
/// every later character of the stem is kept, in order, at the end of the
/// name. When that first character is ASCII the name has the stem's length,
/// a letter `a`-`z` becomes its capital and any other ASCII character stays
/// (`mathUtils.ml` -> `MathUtils`). The stem is the file name without a
/// trailing `.ml`, and the whole name when it has none.
pub proof fn lemma_module_name_shape(filename: Seq<char>)
    ensures
        ({
            let s = stem(filename);
            let m = module_name(filename);
            &&& s.len() == 0 ==> m.len() == 0
            &&& s.len() > 0 ==> m.len() >= s.len() - 1 && m.subrange(
                m.len() - (s.len() - 1),
                m.len() as int,
            ) == s.drop_first()
            &&& s.len() > 0 && (s[0] as u32) < 128 ==> {
                &&& m.len() == s.len()
                &&& m[0] == if 'a' <= s[0] <= 'z' {
                    ((s[0] as u32) - 32) as char
                } else {
                    s[0]
                }
                &&& forall|i: int| 1 <= i < s.len() ==> #[trigger] m[i] == s[i]
            }
        }),
        filename.len() >= 3 && filename.subrange(filename.len() - 3, filename.len() as int)
            == ".ml"@ ==> stem(filename) + ".ml"@ == filename,
        !(filename.len() >= 3 && filename.subrange(filename.len() - 3, filename.len() as int)
            == ".ml"@) ==> stem(filename) == filename,
{
    let s = stem(filename);
    let m = module_name(filename);
    if s.len() > 0 {
        let f = upper_form(s[0]);
        assert(m == f + s.drop_first());
        assert(m.subrange(f.len() as int, m.len() as int) =~= s.drop_first());
        if (s[0] as u32) < 128 {
            assert forall|i: int| 1 <= i < s.len() implies #[trigger] m[i] == s[i] by {
                assert(m[i] == s.drop_first()[i - 1]);
            }
        }
    }
    if filename.len() >= 3 && filename.subrange(filename.len() - 3, filename.len() as int)
        == ".ml"@ {
        assert(s + ".ml"@ =~= filename);
    }
}

/// The directive that switches the interpreter to `module`.
pub open spec fn module_directive(module: Seq<char>) -> Seq<char> {
    "let __module = \""@ + module + "\"\n"@
}

/// `s` with a newline added unless it already ends with one.
pub open spec fn with_final_newline(s: Seq<char>) -> Seq<char> {
    if ends_with_newline(s) {
        s
    } else {
        s.push('\n')
    }
}

/// The auxiliary files `(file name, source)`, in order, each preceded by
/// the directive naming its module and ended by a newline.
pub open spec fn aux_text(files: Seq<(Seq<char>, Seq<char>)>) -> Seq<char>
    decreases files.len(),
{
    if files.len() == 0 {
        seq![]
    } else {
        aux_text(files.drop_last()) + module_directive(module_name(files.last().0))
            + with_final_newline(files.last().1)
    }
}

/// The text fed to the interpreter for a main source and its auxiliary
/// files: the main source alone when there are none, else the auxiliary
/// files followed by the `Main` directive and the main source.
pub open spec fn joined_source(files: Seq<(Seq<char>, Seq<char>)>, main: Seq<char>) -> Seq<char> {
    if files.len() == 0 {
        main
    } else {
        aux_text(files) + module_directive("Main"@) + main
    }
}

/// The `(file name, source)` pairs of string slices, as character sequences.
pub open spec fn pair_views(aux: Seq<(&str, &str)>) -> Seq<(Seq<char>, Seq<char>)> {
    aux.map_values(|p: (&str, &str)| (p.0@, p.1@))
}

/// The `(file name, source)` pairs of auxiliary files.
pub open spec fn aux_views(files: Seq<AuxFile>) -> Seq<(Seq<char>, Seq<char>)> {
    files.map_values(|a: AuxFile| (a.name@, a.source@))
}

fn append_directive(out: &mut String, module: &str)
    ensures
        final(out)@ == old(out)@ + module_directive(module@),
{
    append_str(out, "let __module = \"");
    append_str(out, module);
    append_str(out, "\"\n");
}

/// The auxiliary files `aux` (`(file name, source)` in dependency order),
/// each preceded by a synthesized `let __module = "<Stem>"` directive, then
/// `let __module = "Main"` and the main source. Without auxiliary files the
/// main source is returned unchanged.
pub fn concat_with_aux(aux: &[(&str, &str)], main: &str) -> (r: String)
    ensures
        r@ == joined_source(pair_views(aux@), main@),
{
    if aux.len() == 0 {
        return string_of(main);
    }
    let ghost files = pair_views(aux@);
    let mut out = String::new();
    let mut i: usize = 0;
    while i < aux.len()
        invariant
            i <= aux@.len(),
            files == pair_views(aux@),
            out@ == aux_text(files.take(i as int)),
        decreases aux@.len() - i,
    {
        let (name, source) = aux[i];
        let module = capitalize_stem(name);
        append_directive(&mut out, module.as_str());
        append_str(&mut out, source);
        if !str_ends_with_newline(source) {
            push_char(&mut out, '\n');
        }
        proof {
            assert(files.take(i + 1).drop_last() =~= files.take(i as int));
            assert(files.take(i + 1).last() == (name@, source@));
        }
        i += 1;
    }
    assert(files.take(aux@.len() as int) =~= files);
    append_str(&mut out, "let __module = \"");
    append_str(&mut out, "Main");
    append_str(&mut out, "\"\n");
    append_str(&mut out, main);
    assert(out@ =~= joined_source(files, main@));
    out
}

impl Demo {
    /// The demo's auxiliary files followed by `main` (the caller's main
    /// source, typically as edited in the page), joined as
    /// [`concat_with_aux`] joins them.
    pub fn concat_main(&self, main: &str) -> (r: String)
        ensures
            r@ == joined_source(aux_views(self.auxiliary_files@), main@),
    {
        if self.auxiliary_files.len() == 0 {
            return string_of(main);
        }
        let mut pairs: Vec<(&str, &str)> = Vec::new();
        let mut i: usize = 0;
        while i < self.auxiliary_files.len()
            invariant
                i <= self.auxiliary_files@.len(),
                pairs@.len() == i,
                forall|k: int|
                    0 <= k < i ==> (#[trigger] pairs@[k]).0@ == self.auxiliary_files@[k].name@
                        && pairs@[k].1@ == self.auxiliary_files@[k].source@,
            decreases self.auxiliary_files@.len() - i,
        {
            let a = &self.auxiliary_files[i];
            pairs.push((a.name, a.source));
            i += 1;
        }
        assert(pair_views(pairs@) =~= aux_views(self.auxiliary_files@));
        concat_with_aux(pairs.as_slice(), main)
    }

    /// [`Demo::concat_main`] on the demo's own main source.
    pub fn full_source(&self) -> (r: String)
        ensures
            r@ == joined_source(aux_views(self.auxiliary_files@), self.source@),
    {
        self.concat_main(self.source)
    }
}

/// A demo without auxiliary files runs its main source unchanged.
pub proof fn lemma_single_file_passthrough(main: Seq<char>)
    ensures
        joined_source(seq![], main) == main,
{
}

proof fn lemma_aux_text_starts(files: Seq<(Seq<char>, Seq<char>)>)
    requires
        files.len() > 0,
    ensures
        starts_with(aux_text(files), module_directive(module_name(files[0].0))),
    decreases files.len(),
{
    let d = module_directive(module_name(files[0].0));
    if files.len() == 1 {
        assert(files.drop_last().len() == 0);
        assert(aux_text(files.drop_last()) == Seq::<char>::empty());
        assert(files.last() == files[0]);
        assert(aux_text(files) =~= d + with_final_newline(files[0].1));
        assert((d + with_final_newline(files[0].1)).take(d.len() as int) =~= d);
    } else {
        lemma_aux_text_starts(files.drop_last());
        let t = aux_text(files.drop_last());
        let rest = module_directive(module_name(files.last().0)) + with_final_newline(
            files.last().1,
        );
        assert(aux_text(files) == t + rest);
        assert((t + rest).take(d.len() as int) =~= t.take(d.len() as int));
    }
}

/// With auxiliary files, the text fed to the interpreter starts with the
/// directive naming the module of the first file, and ends with the `Main`
/// directive followed by the main source.
pub proof fn lemma_joined_source_shape(files: Seq<(Seq<char>, Seq<char>)>, main: Seq<char>)
    requires
        files.len() > 0,
    ensures
        starts_with(joined_source(files, main), module_directive(module_name(files[0].0))),
        joined_source(files, main) == aux_text(files) + module_directive("Main"@) + main,
{
    lemma_aux_text_starts(files);
    let d = module_directive(module_name(files[0].0));
    let t = aux_text(files);
    assert((t + module_directive("Main"@) + main).take(d.len() as int) =~= t.take(d.len() as int));
}

/// Whether `a` comes strictly before `b` in lexicographic order.
pub open spec fn lex_lt(a: Seq<char>, b: Seq<char>) -> bool
    decreases a.len(),
{
    if a.len() == 0 {
        b.len() > 0
    } else if b.len() == 0 {
        false
    } else if a[0] != b[0] {
        a[0] < b[0]
    } else {
        lex_lt(a.drop_first(), b.drop_first())
    }
}

/// Whether `s` starts with `p`.
pub open spec fn starts_with(s: Seq<char>, p: Seq<char>) -> bool {
    s.len() >= p.len() && s.take(p.len() as int) == p
}

/// One demo of the catalog, as character sequences.
pub struct DemoSummary {
    pub name: Seq<char>,
    pub source: Seq<char>,
    pub interactive: bool,
    pub description: Seq<char>,
    pub category: DemoCategory,
    pub aux: Seq<(Seq<char>, Seq<char>)>,
}

impl Demo {
    /// The demo's name, main source, whether it reads input, description,
    /// group and auxiliary files.
    pub open spec fn summary(self) -> DemoSummary {
        DemoSummary {
            name: self.name@,
            source: self.source@,
            interactive: self.interactive,
            description: self.description@,
            category: self.category,
            aux: aux_views(self.auxiliary_files@),
        }
    }
}

/// The names of the demos, in catalog order.
pub open spec fn catalog_names() -> Seq<Seq<char>> {
    catalog().map_values(|d: DemoSummary| d.name)
}

/// The demos that read input after their source.
pub open spec fn is_interactive_name(name: Seq<char>) -> bool {
    name == "echo-loop"@ || name == "guess"@ || name == "repl-session"@ || name
        == "text-adventure"@
}

/// The position of the first of `names` equal to `name`, if any.
pub open spec fn position_of(names: Seq<Seq<char>>, name: Seq<char>) -> Option<int>
    decreases names.len(),
{
    if names.len() == 0 {
        None
    } else if names[0] == name {
        Some(0)
    } else {
        match position_of(names.drop_first(), name) {
            Some(i) => Some(i + 1),
            None => None,
        }
    }
}

proof fn lemma_lex_lt_transitive(a: Seq<char>, b: Seq<char>, c: Seq<char>)
    requires
        lex_lt(a, b),
        lex_lt(b, c),
    ensures
        lex_lt(a, c),
    decreases a.len(),
{
    if a.len() > 0 && b.len() > 0 && c.len() > 0 && a[0] == b[0] && b[0] == c[0] {
        lemma_lex_lt_transitive(a.drop_first(), b.drop_first(), c.drop_first());
    }
}

proof fn lemma_lex_lt_irreflexive(a: Seq<char>)
    ensures
        !lex_lt(a, a),
    decreases a.len(),
{
    if a.len() > 0 {
        lemma_lex_lt_irreflexive(a.drop_first());
    }
}

proof fn lemma_adjacent_sorted_is_sorted(s: Seq<Seq<char>>)
    requires
        forall|k: int| 0 <= k < s.len() - 1 ==> lex_lt(#[trigger] s[k], s[k + 1]),
    ensures
        forall|i: int, j: int| 0 <= i < j < s.len() ==> lex_lt(#[trigger] s[i], #[trigger] s[j]),
    decreases s.len(),
{
    if s.len() > 1 {
        let t = s.drop_last();
        assert forall|k: int| 0 <= k < t.len() - 1 implies lex_lt(#[trigger] t[k], t[k + 1]) by {
            assert(t[k] == s[k] && t[k + 1] == s[k + 1]);
        }
        lemma_adjacent_sorted_is_sorted(t);
        assert forall|i: int, j: int| 0 <= i < j < s.len() implies lex_lt(
            #[trigger] s[i],
            #[trigger] s[j],
        ) by {
            if j < s.len() - 1 {
                assert(t[i] == s[i] && t[j] == s[j]);
            } else if i < j - 1 {
                assert(t[i] == s[i] && t[j - 1] == s[j - 1]);
                assert(lex_lt(s[i], s[j - 1]));
                lemma_lex_lt_transitive(s[i], s[j - 1], s[j]);
            }
        }
    }
}

proof fn lemma_position_of_distinct(s: Seq<Seq<char>>, k: int)
    requires
        0 <= k < s.len(),
        forall|i: int, j: int| 0 <= i < s.len() && 0 <= j < s.len() && i != j ==> s[i] != s[j],
    ensures
        position_of(s, s[k]) == Some(k),
    decreases k,
{
    if k > 0 {
        let t = s.drop_first();
        assert forall|i: int, j: int| 0 <= i < t.len() && 0 <= j < t.len() && i != j implies t[i]
            != t[j] by {
            assert(t[i] == s[i + 1] && t[j] == s[j + 1]);
        }
        assert(s[0] != s[k]);
        lemma_position_of_distinct(t, k - 1);
        assert(t[k - 1] == s[k]);
    }
}

/// The position in `demos` of the first demo named `name`, if any.
fn find_demo(demos: &[Demo], name: &str) -> (r: Option<usize>)
    ensures
        r matches Some(i) ==> position_of(demos@.map_values(|d: Demo| d.name@), name@) == Some(
            i as int,
        ),
        r is None ==> position_of(demos@.map_values(|d: Demo| d.name@), name@) is None,
{
    let ghost names = demos@.map_values(|d: Demo| d.name@);
    let mut i: usize = 0;
    assert(names.skip(0) =~= names);
    while i < demos.len()
        invariant
            i <= demos@.len(),
            names == demos@.map_values(|d: Demo| d.name@),
            position_of(names, name@) == match position_of(names.skip(i as int), name@) {
                Some(k) => Some(k + i),
                None => None,
            },
        decreases demos@.len() - i,
    {
        if str_eq(demos[i].name, name) {
            return Some(i);
        }
        assert(names.skip(i as int).drop_first() =~= names.skip(i + 1));
        i += 1;
    }
    None
}

/// The demo selected when the page opens: the position of `hello` in the
/// catalog, or 0 if the catalog had no such demo.
pub fn default_demo_index() -> (r: usize)
    ensures
        r as int == match position_of(catalog_names(), "hello"@) {
            Some(i) => i,
            None => 0,
        },
{
    let ds = demos();
    proof {
        assert(ds@.map_values(|d: Demo| d.name@) =~= catalog_names()) by {
            assert forall|i: int| 0 <= i < ds@.len() implies ds@.map_values(|d: Demo| d.name@)[i]
                == catalog_names()[i] by {
                assert(ds@.map_values(|d: Demo| d.summary())[i] == catalog()[i]);
            }
        }
    }
    match find_demo(ds.as_slice(), "hello") {
        Some(i) => i,
        None => 0,
    }
}

/// The catalog: for each demo in order, its name, main source, whether it
/// reads input, description, group and auxiliary files.
pub open spec fn catalog() -> Seq<DemoSummary> {
    seq![
        DemoSummary {
            name: "canonical-arith"@,
            source: "1 + 2 * 3\n"@,
            interactive: false,
            description: "Operator precedence: `1 + 2 * 3` evaluates `*` before `+` -> 7."@,
            category: DemoCategory::Minimal,
            aux: seq![],
        },
        DemoSummary {
            name: "canonical-fact"@,
            source: "let rec fact n = if n = 0 then 1 else n * fact (n - 1) in fact 5\n"@,
            interactive: false,
            description: "Recursive factorial via `let rec` (5! = 120)."@,
            category: DemoCategory::Minimal,
            aux: seq![],
        },
        DemoSummary {
            name: "canonical-fib"@,
            source: "let rec fib n = if n < 2 then n else fib (n - 1) + fib (n - 2) in print_int (fib 10)\n"@,
            interactive: false,
            description: "Recursive Fibonacci, prints `fib 10` = 55."@,
            category: DemoCategory::Minimal,
            aux: seq![],
        },
        DemoSummary {
            name: "canonical-int-literal"@,
            source: "42\n"@,
            interactive: false,
            description: "The smallest possible expression: an integer literal `42`."@,
            category: DemoCategory::Minimal,
            aux: seq![],
        },
        DemoSummary {
            name: "canonical-lambda-app"@,
            source: "(fun x -> x * 2) 5\n"@,
            interactive: false,
            description: "Apply an inline lambda: `(fun x -> x * 2) 5` -> 10."@,
            category: DemoCategory::Minimal,
            aux: seq![],
        },
        DemoSummary {
            name: "canonical-let-in"@,
            source: "let x = 10 in x * x\n"@,
            interactive: false,
            description: "Local binding via `let ... in`: `let x = 10 in x * x` -> 100."@,
            category: DemoCategory::Minimal,
            aux: seq![],
        },
        DemoSummary {
            name: "canonical-list-filter"@,
            source: "List.filter (fun x -> x mod 2 = 0) [1; 2; 3; 4; 5; 6]\n"@,
            interactive: false,
            description: "`List.filter` with an inline predicate (keep evens)."@,
            category: DemoCategory::Minimal,
            aux: seq![],
        },
        DemoSummary {
            name: "canonical-list-fold-left"@,
            source: "List.fold_left (fun acc x -> acc + x) 0 [1; 2; 3; 4]\n"@,
            interactive: false,
            description: "`List.fold_left` summing `[1;2;3;4]` -> 10."@,
            category: DemoCategory::Minimal,
            aux: seq![],
        },
        DemoSummary {
            name: "canonical-list-map"@,
            source: "List.map (fun x -> x * 2) [1; 2; 3]\n"@,
            interactive: false,
            description: "`List.map` doubling `[1;2;3]` -> `[2; 4; 6]`."@,
            category: DemoCategory::Minimal,
            aux: seq![],
        },
        DemoSummary {
            name: "canonical-match-int"@,
            source: "match 5 with 0 -> 100 | 1 -> 101 | _ -> 999\n"@,
            interactive: false,
            description: "Integer `match` with literal arms and `_` fallthrough."@,
            category: DemoCategory::Minimal,
            aux: seq![],
        },
        DemoSummary {
            name: "canonical-print-length"@,
            source: "print_endline (string_of_int (List.length [1; 2; 3]))\n"@,
            interactive: false,
            description: "Compose `print_endline`, `string_of_int`, `List.length` to print `3`."@,
            category: DemoCategory::Minimal,
            aux: seq![],
        },
        DemoSummary {
            name: "canonical-safe-div"@,
            source: "let safe_div x y = if y = 0 then None else Some (x / y) in safe_div 10 2\n"@,
            interactive: false,
            description: "Option-returning division: `safe_div 10 2` -> `Some 5`."@,
            category: DemoCategory::Minimal,
            aux: seq![],
        },
        DemoSummary {
            name: "canonical-some-42"@,
            source: "Some 42\n"@,
            interactive: false,
            description: "Constructing `Some 42` -- a one-line option intro."@,
            category: DemoCategory::Minimal,
            aux: seq![],
        },
        DemoSummary {
            name: "canonical-string-concat"@,
            source: "\"OCaml\" ^ \" rocks\"\n"@,
            interactive: false,
            description: "String concatenation with `^`: `\"OCaml\" ^ \" rocks\"`."@,
            category: DemoCategory::Minimal,
            aux: seq![],
        },
        DemoSummary {
            name: "canonical-swap"@,
            source: "let swap (x, y) = (y, x) in swap (1, 2)\n"@,
            interactive: false,
            description: "Tuple-destructuring function arg: `let swap (x, y) = (y, x)`."@,
            category: DemoCategory::Minimal,
            aux: seq![],
        },
        DemoSummary {
            name: "canonical-when-guard"@,
            source: "let abs x = match x with n when n < 0 -> -n | n -> n in abs (-5)\n"@,
            interactive: false,
            description: "`match ... when <guard>` arm: minimal `abs` implementation."@,
            category: DemoCategory::Minimal,
            aux: seq![],
        },
        DemoSummary {
            name: "echo-loop"@,
            source: "let rec loop = fun u -> let s = read_line () in if s = \"quit\" then (print_endline \"bye\"; exit 0) else (print_endline s; loop ()) in loop ()\n"@,
            interactive: true,
            description: "Type any text and it's echoed back. Type `quit` to exit."@,
            category: DemoCategory::Standard,
            aux: seq![],
        },
        DemoSummary {
            name: "factorial"@,
            source: "let rec fact = fun n -> if n = 0 then 1 else n * fact (n - 1) in print_int (fact 5)\n"@,
            interactive: false,
            description: "Recursive factorial via `let rec`; computes 5!."@,
            category: DemoCategory::Standard,
            aux: seq![],
        },
        DemoSummary {
            name: "function-form-let"@,
            source: "let f x = x + 1 in f 5\nlet square x = x * x in square 7\nlet add x y = x + y in add 20 22\nlet rec fact n = if n = 0 then 1 else n * fact (n - 1) in fact 5\nlet rec fib n = if n < 2 then n else fib (n-1) + fib (n-2) in fib 7\nlet compose f g x = f (g x) in compose (fun x -> x + 1) (fun x -> x * 2) 10\nlet safe_div x y = if y = 0 then None else Some (x / y) in safe_div 42 6\n"@,
            interactive: false,
            description: "Sugared `let f x y = body` form (curried function definitions)."@,
            category: DemoCategory::Standard,
            aux: seq![],
        },
        DemoSummary {
            name: "function-keyword"@,
            source: "let f = function 0 -> 100 | 1 -> 101 | _ -> 999 in f 0\nlet f = function 0 -> 100 | 1 -> 101 | _ -> 999 in f 1\nlet f = function 0 -> 100 | 1 -> 101 | _ -> 999 in f 5\nlet f = function [] -> 0 | h :: t -> h in f [42; 99]\n(function 0 -> 100 | _ -> 0) 0\nlet classify = function Some n -> n | None -> 0 in classify (Some 42)\nlet classify = function Some n -> n | None -> 0 in classify None\n"@,
            interactive: false,
            description: "The `function` keyword: shorthand for `fun x -> match x with ...`."@,
            category: DemoCategory::Standard,
            aux: seq![],
        },
        DemoSummary {
            name: "function-pattern-args"@,
            source: "let swap (x, y) = (y, x) in swap (1, 2)\nlet sum (a, (b, c)) = a + b + c in sum (1, (2, 3))\nlet head (h :: _) = h in head [1; 2; 3]\nlet f () = 42 in f ()\nlet add (x, y) = x + y in add (3, 4)\n"@,
            interactive: false,
            description: "Destructuring patterns directly in function arguments: `let swap (x, y) = ...`."@,
            category: DemoCategory::Standard,
            aux: seq![],
        },
        DemoSummary {
            name: "functions"@,
            source: "let f = fun x -> x + 1 in f 41\n"@,
            interactive: false,
            description: "First-class functions and `let` bindings."@,
            category: DemoCategory::Standard,
            aux: seq![],
        },
        DemoSummary {
            name: "guess"@,
            source: "let rec loop = fun u -> let g = int_of_string (read_line ()) in if g = 42 then (print_endline \"correct!\"; exit 0) else if g < 42 then (print_endline \"too low\"; loop ()) else (print_endline \"too high\"; loop ()) in (print_endline \"Guess a number 1..100.\"; loop ())\n"@,
            interactive: true,
            description: "Number-guessing game: the target is 42. Enter an integer; the demo replies `too low`, `too high`, or `correct!`."@,
            category: DemoCategory::Standard,
            aux: seq![],
        },
        DemoSummary {
            name: "hello"@,
            source: "print_int 42\n"@,
            interactive: false,
            description: "Smallest possible program: print the integer 42."@,
            category: DemoCategory::Standard,
            aux: seq![],
        },
        DemoSummary {
            name: "hello-world"@,
            source: "print_endline \"Hello, World!\"\n"@,
            interactive: false,
            description: "Print the string `\"Hello, World!\"` via `print_endline`."@,
            category: DemoCategory::Standard,
            aux: seq![],
        },
        DemoSummary {
            name: "higher-order-lists"@,
            source: "List.map (fun x -> x * 2) [1;2;3]\nList.map (fun x -> x + 1) []\nList.filter (fun x -> x mod 2 = 0) [1;2;3;4;5;6]\nList.filter (fun x -> x > 10) [1;5;15;20;3]\nList.fold_left (fun acc x -> acc + x) 0 [1;2;3;4]\nList.fold_left (fun acc x -> acc * x) 1 [1;2;3;4;5]\nList.iter (fun x -> print_int x) [10;20;30]\nlet inc x = x + 1 in List.map inc [1;2;3]\nList.fold_left (fun acc x -> x :: acc) [] [1;2;3]\n"@,
            interactive: false,
            description: "`List.map`, `List.filter`, `List.fold_left`, `List.iter` with inline lambdas."@,
            category: DemoCategory::Standard,
            aux: seq![],
        },
        DemoSummary {
            name: "led-blink"@,
            source: "led_on (); print_int 1; led_off (); print_int 0; led_on (); print_int 1\n"@,
            interactive: false,
            description: "Drive the COR24 LED via `led_on` / `led_off`. Browser stubs the LED."@,
            category: DemoCategory::Standard,
            aux: seq![],
        },
        DemoSummary {
            name: "led-toggle"@,
            source: "let s = switch () in set_led s; print_int (if s then 1 else 0)\n"@,
            interactive: false,
            description: "Read the COR24 switch and reflect it on the LED."@,
            category: DemoCategory::Standard,
            aux: seq![],
        },
        DemoSummary {
            name: "let-destructure"@,
            source: "let (a, b) = (1, 2) in a + b\nlet (x, y) = (10, 20) in let (p, q) = (3, 4) in x + y + p + q\nlet h :: t = [1; 2; 3] in h\nlet [a; b; c] = [10; 20; 30] in a + b + c\nlet Some n = Some 99 in n + 1\nlet (x, [a; b]) = (1, [2; 3]) in x + a + b\n"@,
            interactive: false,
            description: "Destructuring `let (a, b) = ...`, `let h :: t = ...`, and friends."@,
            category: DemoCategory::Standard,
            aux: seq![],
        },
        DemoSummary {
            name: "list-module"@,
            source: "List.length [1;2;3]\nList.length []\nList.rev [1;2;3]\nList.rev []\nList.hd [42; 99]\nList.tl [1; 2; 3]\nList.is_empty nil\nList.is_empty [1]\n"@,
            interactive: false,
            description: "`List.length`, `List.rev`, qualified-name lookups."@,
            category: DemoCategory::Standard,
            aux: seq![],
        },
        DemoSummary {
            name: "lists"@,
            source: "[]\n[1]\n[1; 2; 3]\n1 :: nil\nis_empty nil\nis_empty [1]\nhd [42]\ntl [1; 2; 3]\n"@,
            interactive: false,
            description: "List literals, cons, head/tail, is_empty."@,
            category: DemoCategory::Standard,
            aux: seq![],
        },
        DemoSummary {
            name: "lists-pairs-demo"@,
            source: "let rec sum = fun l -> if is_empty l then 0 else hd l + sum (tl l) in sum [1;2;3;4;5]\nlet rec length = fun l -> if is_empty l then 0 else 1 + length (tl l) in length [10;20;30]\nlet rec map = fun f l -> if is_empty l then [] else (f (hd l)) :: (map f (tl l)) in map (fun x -> x * 2) [1;2;3]\nlet p = (3, 4) in fst p * fst p + snd p * snd p\nList.length [1;2;3;4;5]\nList.rev [1;2;3;4;5]\nlet swap = fun p -> (snd p, fst p) in swap (1, 2)\nlet rec countdown = fun n -> if n = 0 then [] else n :: countdown (n - 1) in countdown 5\n"@,
            interactive: false,
            description: "Sum, length, map, swap, countdown \u{2014} lists + pairs in one program."@,
            category: DemoCategory::Standard,
            aux: seq![],
        },
        DemoSummary {
            name: "modules"@,
            source: "let __module = \"Math\"        (* enter module Math *)\nlet add x y = x + y          (* defines Math.add *)\nlet double x = add x x       (* Math.double; unqualified add resolves within Math *)\nlet __module = \"Main\"        (* switch to Main; Math's bindings now require qualification *)\nMath.add 2 3                 (* qualified dispatch into Math --> 5 *)\nMath.double 9                (* qualified --> 18 *)\nMath.add 1 2                 (* the right way: qualify into Math --> 3 *)\nadd 1 2                      (* the wrong way: unqualified add lives in Math, not Main -- EVAL ERROR expected *)\n"@,
            interactive: false,
            description: "User-defined module namespaces via the `let __module = \"...\"` directive. Defines `Math.add`/`Math.double`, switches to `Main`, shows three qualified calls succeeding -- then a deliberate unqualified `add 1 2` to demonstrate namespace isolation. The trailing `EVAL ERROR` is the punchline; the language has no try/catch, the REPL just resets per line."@,
            category: DemoCategory::Standard,
            aux: seq![],
        },
        DemoSummary {
            name: "modules-multifile"@,
            source: "Math.add 2 3\nMath.square 5\nMath.double 7\n"@,
            interactive: false,
            description: "Multi-file module demo (Phase 1): `math.ml` defines `Math.add` / `Math.square` / `Math.double`; `main.ml` calls them by qualified name. The runner concatenates the files with synthesized `let __module = \"...\"` directives, matching the CLI's `run-ocaml.sh` behaviour. The editor shows only `main.ml`; the aux file is baked in read-only."@,
            category: DemoCategory::Standard,
            aux: seq![("math.ml"@, "let add x y = x + y\nlet square x = x * x\nlet double x = add x x\n"@)],
        },
        DemoSummary {
            name: "multi-arg"@,
            source: "let add = fun x y -> x + y in print_int (add 20 22)\n"@,
            interactive: false,
            description: "Multi-argument curried function via `fun x y -> ...`."@,
            category: DemoCategory::Standard,
            aux: seq![],
        },
        DemoSummary {
            name: "named-adts"@,
            source: "type color = Red | Green | Blue\nRed\nGreen\nBlue\nmatch Red with Red -> 1 | Green -> 2 | Blue -> 3\nmatch Green with Red -> 1 | Green -> 2 | Blue -> 3\nmatch Blue with Red -> 1 | Green -> 2 | Blue -> 3\nlet name = function Red -> \"red\" | Green -> \"green\" | Blue -> \"blue\" in name Blue\ntype shape = Circle | Square | Triangle\nmatch Circle with Red -> 1 | Green -> 2 | Blue -> 3 | Circle -> 10 | Square -> 11 | Triangle -> 12\n"@,
            interactive: false,
            description: "Sum types via `type T = C1 | C2 | ...` and `match` expressions."@,
            category: DemoCategory::Standard,
            aux: seq![],
        },
        DemoSummary {
            name: "options"@,
            source: "None\nSome 42\nSome [1; 2; 3]\nSome (1, 2)\nlet x = Some 7 in x\nSome (Some 3)\n"@,
            interactive: false,
            description: "The built-in `option` type: `None` and `Some x`."@,
            category: DemoCategory::Standard,
            aux: seq![],
        },
        DemoSummary {
            name: "pairs"@,
            source: "(1, 2)\nfst (1, 2)\nsnd (10, 20)\nlet p = (10, 20) in fst p + snd p\n(1, [2; 3])\n(fst (1, 2), snd (3, 4))\n"@,
            interactive: false,
            description: "Tuple construction with `fst` / `snd` accessors."@,
            category: DemoCategory::Standard,
            aux: seq![],
        },
        DemoSummary {
            name: "patterns"@,
            source: "let rec sum = fun l -> match l with [] -> 0 | h :: t -> h + sum t in sum [1;2;3;4;5]\nlet rec length = fun l -> match l with [] -> 0 | _ :: t -> 1 + length t in length [10;20;30]\nlet rec map = fun f l -> match l with [] -> [] | h :: t -> f h :: map f t in map (fun x -> x * 2) [1;2;3]\nlet rec filter = fun f l -> match l with [] -> [] | h :: t -> if f h then h :: filter f t else filter f t in filter (fun x -> x mod 2 = 0) [1;2;3;4;5;6]\nlet safe_div = fun x y -> if y = 0 then None else Some (x / y) in safe_div 10 3\nlet safe_div = fun x y -> if y = 0 then None else Some (x / y) in safe_div 10 0\nmatch Some 7 with None -> 0 | Some n -> n + 1\nlet classify = fun n -> match n with 0 -> 100 | 1 -> 101 | _ -> 999 in classify 0\nlet classify = fun n -> match n with 0 -> 100 | 1 -> 101 | _ -> 999 in classify 5\nlet swap = fun p -> match p with (a, b) -> (b, a) in swap (1, 2)\n"@,
            interactive: false,
            description: "Pattern matching across lists, tuples, options, and literals."@,
            category: DemoCategory::Standard,
            aux: seq![],
        },
        DemoSummary {
            name: "print"@,
            source: "let x = 41 + 1 in print_int x\n"@,
            interactive: false,
            description: "`print_int` and `putc` writing through the UART."@,
            category: DemoCategory::Standard,
            aux: seq![],
        },
        DemoSummary {
            name: "repl-session"@,
            source: "42\nlet x = 1 + 1 in x\nlet f = fun x -> x * 2 in f 21\nlet rec fact = fun n -> if n = 0 then 1 else n * fact (n - 1) in fact 5\nprint_int 99\n"@,
            interactive: true,
            description: "Multi-expression REPL session -- type more lines after the seed runs. Each input must be a complete expression: `let x = 42 in x`, not bare `let x = 42`."@,
            category: DemoCategory::Standard,
            aux: seq![],
        },
        DemoSummary {
            name: "sequencing"@,
            source: "print_int 1; print_int 2; print_int 3\n"@,
            interactive: false,
            description: "Semicolon-sequenced expressions evaluated left-to-right."@,
            category: DemoCategory::Standard,
            aux: seq![],
        },
        DemoSummary {
            name: "string-conversion"@,
            source: "string_of_int 42\nstring_of_int 0\nstring_of_int (-7)\nstring_of_int 123456\nint_of_string \"100\"\nint_of_string \"-42\"\nint_of_string \"0\"\nprint_endline (string_of_int (List.length [1;2;3]))\nstring_of_int (List.fold_left (fun a x -> a + x) 0 [1;2;3;4;5])\nint_of_string (string_of_int 789)\nint_of_string \"abc\"\nint_of_string \"\"\n"@,
            interactive: false,
            description: "`string_of_int` / `int_of_string` round-trips, including malformed inputs."@,
            category: DemoCategory::Standard,
            aux: seq![],
        },
        DemoSummary {
            name: "string-equality"@,
            source: "\"abc\" = \"abc\"\n\"abc\" = \"abd\"\n\"abc\" = \"abcd\"\n\"\" = \"\"\n\"hello\" <> \"world\"\n\"same\" <> \"same\"\nif \"quit\" = \"quit\" then print_endline \"yes\" else print_endline \"no\"\nif \"quit\" = \"keep\" then print_endline \"yes\" else print_endline \"no\"\n"@,
            interactive: false,
            description: "Structural `=` and `<>` on strings, including in `if` conditions."@,
            category: DemoCategory::Standard,
            aux: seq![],
        },
        DemoSummary {
            name: "string-escapes"@,
            source: "let s = \"line1\\nline2\" in print_endline s\nlet s = \"tab\\tbackslash\\\\quote\\\"\" in print_endline s\nString.length \"a\\nb\"\n"@,
            interactive: false,
            description: "Escape sequences in string literals: `\\n`, `\\t`, `\\\\`, `\\\"`."@,
            category: DemoCategory::Standard,
            aux: seq![],
        },
        DemoSummary {
            name: "strings"@,
            source: "\"Hello\"\n\"OCaml\" ^ \" rocks\"\nprint_endline \"Hello, World!\"\nString.length \"abcde\"\nString.length \"\"\n\"x\" ^ \"y\" ^ \"z\"\nlet greeting = \"Hello, \" ^ \"World!\" in print_endline greeting\n"@,
            interactive: false,
            description: "String literals, `^` concatenation, `print_endline`, `String.length`."@,
            category: DemoCategory::Standard,
            aux: seq![],
        },
        DemoSummary {
            name: "tco-countdown"@,
            source: "let rec count = fun n -> if n = 0 then print_endline \"done\" else (print_int n; count (n - 1)) in count 100\n"@,
            interactive: false,
            description: "Tail-call optimisation: count down from 100 without growing the stack."@,
            category: DemoCategory::Standard,
            aux: seq![],
        },
        DemoSummary {
            name: "text-adventure"@,
            source: "type room = Cave | Hall | Garden | Outside\nlet describe r = match r with Cave -> print_endline \"Damp cave. A lamp lies here. Exits: n.\" | Hall -> print_endline \"Pillared hall. Exits: s, e, n (out).\" | Garden -> print_endline \"Sunlit garden. A key glints here. Exits: w.\" | Outside -> print_endline \"You step into daylight. The end!\" in let item r = match r with Cave -> \"lamp\" | Garden -> \"key\" | _ -> \"\" in let go r d = match r with Cave -> (if d = \"n\" then Hall else Cave) | Hall -> (if d = \"s\" then Cave else if d = \"e\" then Garden else if d = \"n\" then Outside else Hall) | Garden -> (if d = \"w\" then Hall else Garden) | Outside -> Outside in let rec show inv = match inv with [] -> () | h :: t -> (print_endline h; show t) in let rec loop st = let r = fst st in let inv = snd st in let c = read_line () in if c = \"quit\" then exit 0 else if c = \"look\" then (describe r; loop st) else if c = \"inventory\" then (show inv; loop st) else if c = \"take\" then (if item r = \"\" then (print_endline \"nothing to take\"; loop st) else (print_endline (\"you take the \" ^ item r); loop (r, item r :: inv))) else (let r2 = go r c in describe r2; match r2 with Outside -> exit 0 | _ -> loop (r2, inv)) in (describe Cave; loop (Cave, []))\n"@,
            interactive: true,
            description: "Interactive text adventure: navigate rooms, pick up items. Commands: look, inventory, take, n/s/e/w, quit."@,
            category: DemoCategory::Standard,
            aux: seq![],
        },
        DemoSummary {
            name: "toplevel-let"@,
            source: "let greet = fun name -> print_endline (\"hello, \" ^ name)\nlet _ = greet \"world\"\nlet _ = greet \"tuplet\"\nlet add x y = x + y\nlet _ = print_int (add 20 22)\nlet rec fact n = if n = 0 then 1 else n * fact (n - 1)\nlet _ = print_int (fact 5)\nlet (a, b) = (3, 4)\nlet _ = print_int (a + b)\nlet () = print_endline \"done\"\n"@,
            interactive: false,
            description: "Top-level `let` bindings, recursive `let rec`, tuple destructuring, `let () = ...`."@,
            category: DemoCategory::Standard,
            aux: seq![],
        },
        DemoSummary {
            name: "tuple-arity"@,
            source: "let t = (1, 42, \"hello\") in match t with (0, _, s) -> print_endline (\"IDENT \" ^ s) | (1, n, _) -> print_endline (\"INT \" ^ string_of_int n) | (_, _, _) -> print_endline \"OTHER\"\nlet q = (1, 2, 3, 4) in match q with (1, _, 3, n) -> print_int n | (_, _, _, _) -> print_int 0\n(1, 2, 3)\nmatch (0, \"name\", 9) with (0, s, _) -> print_endline s | (_, _, _) -> print_endline \"miss\"\n"@,
            interactive: false,
            description: "Pattern matching against 3- and 4-tuples with wildcards."@,
            category: DemoCategory::Standard,
            aux: seq![],
        },
        DemoSummary {
            name: "variants-with-payload"@,
            source: "type token = TInt of int | TIdent of string | TLArrow | TEOF\nlet dump tok = match tok with TInt n -> string_of_int n | TIdent s -> s | TLArrow -> \"<-\" | TEOF -> \"EOF\"\nlet _ = print_endline (dump (TInt 42))\nlet _ = print_endline (dump (TIdent \"abc\"))\nlet _ = print_endline (dump TLArrow)\nlet _ = print_endline (dump TEOF)\nTInt 7\ntype color = Red | Green | Blue\nlet color_name c = match c with Red -> \"red\" | Green -> \"green\" | Blue -> \"blue\"\nlet _ = print_endline (color_name Green)\n"@,
            interactive: false,
            description: "Variant constructors carrying payloads (`TInt of int`, `TIdent of string`) dispatched via `match`."@,
            category: DemoCategory::Standard,
            aux: seq![],
        },
        DemoSummary {
            name: "when-guards"@,
            source: "let abs x = match x with n when n < 0 -> -n | n -> n in abs (-5)\nlet abs x = match x with n when n < 0 -> -n | n -> n in abs 7\nlet sign x = match x with n when n < 0 -> -1 | 0 -> 0 | _ -> 1 in sign (-10)\nlet sign x = match x with n when n < 0 -> -1 | 0 -> 0 | _ -> 1 in sign 0\nlet sign x = match x with n when n < 0 -> -1 | 0 -> 0 | _ -> 1 in sign 99\nmatch 7 with n when n > 10 -> \"big\" | n when n > 5 -> \"mid\" | _ -> \"small\"\n"@,
            interactive: false,
            description: "`match ... when <guard>` clauses for conditional pattern arms (abs, sign)."@,
            category: DemoCategory::Standard,
            aux: seq![],
        },
    ]
}

proof fn lemma_catalog_names_entries()
    ensures
        catalog().len() == 52,
        catalog_names().len() == 52,
        forall|i: int| 0 <= i < 52 ==> catalog_names()[i] == (#[trigger] catalog()[i]).name,
{
}

/// The catalog is in alphabetical order of names, each name strictly after
/// the one before it, so that no two demos share a name.
#[verifier::spinoff_prover]
#[verifier::rlimit(50)]
pub proof fn lemma_catalog_alphabetised()
    ensures
        forall|i: int, j: int|
            0 <= i < j < catalog_names().len() ==> lex_lt(
                #[trigger] catalog_names()[i],
                #[trigger] catalog_names()[j],
            ),
        forall|i: int, j: int|
            0 <= i < catalog_names().len() && 0 <= j < catalog_names().len() && i != j
                ==> catalog_names()[i] != catalog_names()[j],
{
    lemma_catalog_names_entries();
    let c = catalog();
    let s = catalog_names();
    assert(lex_lt(s[0], s[1])) by {
        assert(s[0] == c[0].name && s[1] == c[1].name);
        reveal_strlit("canonical-arith");
        reveal_strlit("canonical-fact");
        reveal_with_fuel(lex_lt, 16);
    }
    assert(lex_lt(s[1], s[2])) by {
        assert(s[1] == c[1].name && s[2] == c[2].name);
        reveal_strlit("canonical-fact");
        reveal_strlit("canonical-fib");
        reveal_with_fuel(lex_lt, 15);
    }
    assert(lex_lt(s[2], s[3])) by {
        assert(s[2] == c[2].name && s[3] == c[3].name);
        reveal_strlit("canonical-fib");
        reveal_strlit("canonical-int-literal");
        reveal_with_fuel(lex_lt, 15);
    }
    assert(lex_lt(s[3], s[4])) by {
        assert(s[3] == c[3].name && s[4] == c[4].name);
        reveal_strlit("canonical-int-literal");
        reveal_strlit("canonical-lambda-app");
        reveal_with_fuel(lex_lt, 22);
    }
    assert(lex_lt(s[4], s[5])) by {
        assert(s[4] == c[4].name && s[5] == c[5].name);
        reveal_strlit("canonical-lambda-app");
        reveal_strlit("canonical-let-in");
        reveal_with_fuel(lex_lt, 18);
    }
    assert(lex_lt(s[5], s[6])) by {
        assert(s[5] == c[5].name && s[6] == c[6].name);
        reveal_strlit("canonical-let-in");
        reveal_strlit("canonical-list-filter");
        reveal_with_fuel(lex_lt, 18);
    }
    assert(lex_lt(s[6], s[7])) by {
        assert(s[6] == c[6].name && s[7] == c[7].name);
        reveal_strlit("canonical-list-filter");
        reveal_strlit("canonical-list-fold-left");
        reveal_with_fuel(lex_lt, 23);
    }
    assert(lex_lt(s[7], s[8])) by {
        assert(s[7] == c[7].name && s[8] == c[8].name);
        reveal_strlit("canonical-list-fold-left");
        reveal_strlit("canonical-list-map");
        reveal_with_fuel(lex_lt, 20);
    }
    assert(lex_lt(s[8], s[9])) by {
        assert(s[8] == c[8].name && s[9] == c[9].name);
        reveal_strlit("canonical-list-map");
        reveal_strlit("canonical-match-int");
        reveal_with_fuel(lex_lt, 20);
    }
    assert(lex_lt(s[9], s[10])) by {
        assert(s[9] == c[9].name && s[10] == c[10].name);
        reveal_strlit("canonical-match-int");
        reveal_strlit("canonical-print-length");
        reveal_with_fuel(lex_lt, 21);
    }
    assert(lex_lt(s[10], s[11])) by {
        assert(s[10] == c[10].name && s[11] == c[11].name);
        reveal_strlit("canonical-print-length");
        reveal_strlit("canonical-safe-div");
        reveal_with_fuel(lex_lt, 20);
    }
    assert(lex_lt(s[11], s[12])) by {
        assert(s[11] == c[11].name && s[12] == c[12].name);
        reveal_strlit("canonical-safe-div");
        reveal_strlit("canonical-some-42");
        reveal_with_fuel(lex_lt, 19);
    }
    assert(lex_lt(s[12], s[13])) by {
        assert(s[12] == c[12].name && s[13] == c[13].name);
        reveal_strlit("canonical-some-42");
        reveal_strlit("canonical-string-concat");
        reveal_with_fuel(lex_lt, 19);
    }
    assert(lex_lt(s[13], s[14])) by {
        assert(s[13] == c[13].name && s[14] == c[14].name);
        reveal_strlit("canonical-string-concat");
        reveal_strlit("canonical-swap");
        reveal_with_fuel(lex_lt, 16);
    }
    assert(lex_lt(s[14], s[15])) by {
        assert(s[14] == c[14].name && s[15] == c[15].name);
        reveal_strlit("canonical-swap");
        reveal_strlit("canonical-when-guard");
        reveal_with_fuel(lex_lt, 16);
    }
    assert(lex_lt(s[15], s[16])) by {
        assert(s[15] == c[15].name && s[16] == c[16].name);
        reveal_strlit("canonical-when-guard");
        reveal_strlit("echo-loop");
        reveal_with_fuel(lex_lt, 11);
    }
    assert(lex_lt(s[16], s[17])) by {
        assert(s[16] == c[16].name && s[17] == c[17].name);
        reveal_strlit("echo-loop");
        reveal_strlit("factorial");
        reveal_with_fuel(lex_lt, 11);
    }
    assert(lex_lt(s[17], s[18])) by {
        assert(s[17] == c[17].name && s[18] == c[18].name);
        reveal_strlit("factorial");
        reveal_strlit("function-form-let");
        reveal_with_fuel(lex_lt, 11);
    }
    assert(lex_lt(s[18], s[19])) by {
        assert(s[18] == c[18].name && s[19] == c[19].name);
        reveal_strlit("function-form-let");
        reveal_strlit("function-keyword");
        reveal_with_fuel(lex_lt, 18);
    }
    assert(lex_lt(s[19], s[20])) by {
        assert(s[19] == c[19].name && s[20] == c[20].name);
        reveal_strlit("function-keyword");
        reveal_strlit("function-pattern-args");
        reveal_with_fuel(lex_lt, 18);
    }
    assert(lex_lt(s[20], s[21])) by {
        assert(s[20] == c[20].name && s[21] == c[21].name);
        reveal_strlit("function-pattern-args");
        reveal_strlit("functions");
        reveal_with_fuel(lex_lt, 11);
    }
    assert(lex_lt(s[21], s[22])) by {
        assert(s[21] == c[21].name && s[22] == c[22].name);
        reveal_strlit("functions");
        reveal_strlit("guess");
        reveal_with_fuel(lex_lt, 7);
    }
    assert(lex_lt(s[22], s[23])) by {
        assert(s[22] == c[22].name && s[23] == c[23].name);
        reveal_strlit("guess");
        reveal_strlit("hello");
        reveal_with_fuel(lex_lt, 7);
    }
    assert(lex_lt(s[23], s[24])) by {
        assert(s[23] == c[23].name && s[24] == c[24].name);
        reveal_strlit("hello");
        reveal_strlit("hello-world");
        reveal_with_fuel(lex_lt, 7);
    }
    assert(lex_lt(s[24], s[25])) by {
        assert(s[24] == c[24].name && s[25] == c[25].name);
        reveal_strlit("hello-world");
        reveal_strlit("higher-order-lists");
        reveal_with_fuel(lex_lt, 13);
    }
    assert(lex_lt(s[25], s[26])) by {
        assert(s[25] == c[25].name && s[26] == c[26].name);
        reveal_strlit("higher-order-lists");
        reveal_strlit("led-blink");
        reveal_with_fuel(lex_lt, 11);
    }
    assert(lex_lt(s[26], s[27])) by {
        assert(s[26] == c[26].name && s[27] == c[27].name);
        reveal_strlit("led-blink");
        reveal_strlit("led-toggle");
        reveal_with_fuel(lex_lt, 11);
    }
    assert(lex_lt(s[27], s[28])) by {
        assert(s[27] == c[27].name && s[28] == c[28].name);
        reveal_strlit("led-toggle");
        reveal_strlit("let-destructure");
        reveal_with_fuel(lex_lt, 12);
    }
    assert(lex_lt(s[28], s[29])) by {
        assert(s[28] == c[28].name && s[29] == c[29].name);
        reveal_strlit("let-destructure");
        reveal_strlit("list-module");
        reveal_with_fuel(lex_lt, 13);
    }
    assert(lex_lt(s[29], s[30])) by {
        assert(s[29] == c[29].name && s[30] == c[30].name);
        reveal_strlit("list-module");
        reveal_strlit("lists");
        reveal_with_fuel(lex_lt, 7);
    }
    assert(lex_lt(s[30], s[31])) by {
        assert(s[30] == c[30].name && s[31] == c[31].name);
        reveal_strlit("lists");
        reveal_strlit("lists-pairs-demo");
        reveal_with_fuel(lex_lt, 7);
    }
    assert(lex_lt(s[31], s[32])) by {
        assert(s[31] == c[31].name && s[32] == c[32].name);
        reveal_strlit("lists-pairs-demo");
        reveal_strlit("modules");
        reveal_with_fuel(lex_lt, 9);
    }
    assert(lex_lt(s[32], s[33])) by {
        assert(s[32] == c[32].name && s[33] == c[33].name);
        reveal_strlit("modules");
        reveal_strlit("modules-multifile");
        reveal_with_fuel(lex_lt, 9);
    }
    assert(lex_lt(s[33], s[34])) by {
        assert(s[33] == c[33].name && s[34] == c[34].name);
        reveal_strlit("modules-multifile");
        reveal_strlit("multi-arg");
        reveal_with_fuel(lex_lt, 11);
    }
    assert(lex_lt(s[34], s[35])) by {
        assert(s[34] == c[34].name && s[35] == c[35].name);
        reveal_strlit("multi-arg");
        reveal_strlit("named-adts");
        reveal_with_fuel(lex_lt, 11);
    }
    assert(lex_lt(s[35], s[36])) by {
        assert(s[35] == c[35].name && s[36] == c[36].name);
        reveal_strlit("named-adts");
        reveal_strlit("options");
        reveal_with_fuel(lex_lt, 9);
    }
    assert(lex_lt(s[36], s[37])) by {
        assert(s[36] == c[36].name && s[37] == c[37].name);
        reveal_strlit("options");
        reveal_strlit("pairs");
        reveal_with_fuel(lex_lt, 7);
    }
    assert(lex_lt(s[37], s[38])) by {
        assert(s[37] == c[37].name && s[38] == c[38].name);
        reveal_strlit("pairs");
        reveal_strlit("patterns");
        reveal_with_fuel(lex_lt, 7);
    }
    assert(lex_lt(s[38], s[39])) by {
        assert(s[38] == c[38].name && s[39] == c[39].name);
        reveal_strlit("patterns");
        reveal_strlit("print");
        reveal_with_fuel(lex_lt, 7);
    }
    assert(lex_lt(s[39], s[40])) by {
        assert(s[39] == c[39].name && s[40] == c[40].name);
        reveal_strlit("print");
        reveal_strlit("repl-session");
        reveal_with_fuel(lex_lt, 7);
    }
    assert(lex_lt(s[40], s[41])) by {
        assert(s[40] == c[40].name && s[41] == c[41].name);
        reveal_strlit("repl-session");
        reveal_strlit("sequencing");
        reveal_with_fuel(lex_lt, 12);
    }
    assert(lex_lt(s[41], s[42])) by {
        assert(s[41] == c[41].name && s[42] == c[42].name);
        reveal_strlit("sequencing");
        reveal_strlit("string-conversion");
        reveal_with_fuel(lex_lt, 12);
    }
    assert(lex_lt(s[42], s[43])) by {
        assert(s[42] == c[42].name && s[43] == c[43].name);
        reveal_strlit("string-conversion");
        reveal_strlit("string-equality");
        reveal_with_fuel(lex_lt, 17);
    }
    assert(lex_lt(s[43], s[44])) by {
        assert(s[43] == c[43].name && s[44] == c[44].name);
        reveal_strlit("string-equality");
        reveal_strlit("string-escapes");
        reveal_with_fuel(lex_lt, 16);
    }
    assert(lex_lt(s[44], s[45])) by {
        assert(s[44] == c[44].name && s[45] == c[45].name);
        reveal_strlit("string-escapes");
        reveal_strlit("strings");
        reveal_with_fuel(lex_lt, 9);
    }
    assert(lex_lt(s[45], s[46])) by {
        assert(s[45] == c[45].name && s[46] == c[46].name);
        reveal_strlit("strings");
        reveal_strlit("tco-countdown");
        reveal_with_fuel(lex_lt, 9);
    }
    assert(lex_lt(s[46], s[47])) by {
        assert(s[46] == c[46].name && s[47] == c[47].name);
        reveal_strlit("tco-countdown");
        reveal_strlit("text-adventure");
        reveal_with_fuel(lex_lt, 15);
    }
    assert(lex_lt(s[47], s[48])) by {
        assert(s[47] == c[47].name && s[48] == c[48].name);
        reveal_strlit("text-adventure");
        reveal_strlit("toplevel-let");
        reveal_with_fuel(lex_lt, 14);
    }
    assert(lex_lt(s[48], s[49])) by {
        assert(s[48] == c[48].name && s[49] == c[49].name);
        reveal_strlit("toplevel-let");
        reveal_strlit("tuple-arity");
        reveal_with_fuel(lex_lt, 13);
    }
    assert(lex_lt(s[49], s[50])) by {
        assert(s[49] == c[49].name && s[50] == c[50].name);
        reveal_strlit("tuple-arity");
        reveal_strlit("variants-with-payload");
        reveal_with_fuel(lex_lt, 13);
    }
    assert(lex_lt(s[50], s[51])) by {
        assert(s[50] == c[50].name && s[51] == c[51].name);
        reveal_strlit("variants-with-payload");
        reveal_strlit("when-guards");
        reveal_with_fuel(lex_lt, 13);
    }
    assert forall|k: int| 0 <= k < s.len() - 1 implies lex_lt(#[trigger] s[k], s[k + 1]) by {
    }
    lemma_adjacent_sorted_is_sorted(s);
    assert forall|i: int, j: int| 0 <= i < s.len() && 0 <= j < s.len() && i != j implies s[i]
        != s[j] by {
        if i < j {
            assert(lex_lt(s[i], s[j]));
        } else {
            assert(lex_lt(s[j], s[i]));
        }
        lemma_lex_lt_irreflexive(s[i]);
    }
}

/// The minimal demos are exactly the first sixteen of the catalog, and
/// exactly those whose names start with `canonical-`; none of them reads
/// input or has auxiliary files.
#[verifier::spinoff_prover]
#[verifier::rlimit(50)]
pub proof fn lemma_catalog_minimal()
    ensures
        forall|i: int|
            0 <= i < catalog().len() ==> ((#[trigger] catalog()[i]).category
                == DemoCategory::Minimal <==> i < 16),
        forall|i: int|
            0 <= i < catalog().len() ==> ((#[trigger] catalog()[i]).category
                == DemoCategory::Minimal <==> starts_with(catalog()[i].name, "canonical-"@)),
        forall|i: int|
            0 <= i < catalog().len() && (#[trigger] catalog()[i]).category
                == DemoCategory::Minimal ==> !catalog()[i].interactive && catalog()[i].aux.len()
                == 0,
{
    let c = catalog();
    reveal_strlit("canonical-");
    assert(starts_with(c[0].name, "canonical-"@) == true) by {
        reveal_strlit("canonical-arith");
        assert(c[0].name.take(10) =~= "canonical-"@);
    }
    assert(starts_with(c[1].name, "canonical-"@) == true) by {
        reveal_strlit("canonical-fact");
        assert(c[1].name.take(10) =~= "canonical-"@);
    }
    assert(starts_with(c[2].name, "canonical-"@) == true) by {
        reveal_strlit("canonical-fib");
        assert(c[2].name.take(10) =~= "canonical-"@);
    }
    assert(starts_with(c[3].name, "canonical-"@) == true) by {
        reveal_strlit("canonical-int-literal");
        assert(c[3].name.take(10) =~= "canonical-"@);
    }
    assert(starts_with(c[4].name, "canonical-"@) == true) by {
        reveal_strlit("canonical-lambda-app");
        assert(c[4].name.take(10) =~= "canonical-"@);
    }
    assert(starts_with(c[5].name, "canonical-"@) == true) by {
        reveal_strlit("canonical-let-in");
        assert(c[5].name.take(10) =~= "canonical-"@);
    }
    assert(starts_with(c[6].name, "canonical-"@) == true) by {
        reveal_strlit("canonical-list-filter");
        assert(c[6].name.take(10) =~= "canonical-"@);
    }
    assert(starts_with(c[7].name, "canonical-"@) == true) by {
        reveal_strlit("canonical-list-fold-left");
        assert(c[7].name.take(10) =~= "canonical-"@);
    }
    assert(starts_with(c[8].name, "canonical-"@) == true) by {
        reveal_strlit("canonical-list-map");
        assert(c[8].name.take(10) =~= "canonical-"@);
    }
    assert(starts_with(c[9].name, "canonical-"@) == true) by {
        reveal_strlit("canonical-match-int");
        assert(c[9].name.take(10) =~= "canonical-"@);
    }
    assert(starts_with(c[10].name, "canonical-"@) == true) by {
        reveal_strlit("canonical-print-length");
        assert(c[10].name.take(10) =~= "canonical-"@);
    }
    assert(starts_with(c[11].name, "canonical-"@) == true) by {
        reveal_strlit("canonical-safe-div");
        assert(c[11].name.take(10) =~= "canonical-"@);
    }
    assert(starts_with(c[12].name, "canonical-"@) == true) by {
        reveal_strlit("canonical-some-42");
        assert(c[12].name.take(10) =~= "canonical-"@);
    }
    assert(starts_with(c[13].name, "canonical-"@) == true) by {
        reveal_strlit("canonical-string-concat");
        assert(c[13].name.take(10) =~= "canonical-"@);
    }
    assert(starts_with(c[14].name, "canonical-"@) == true) by {
        reveal_strlit("canonical-swap");
        assert(c[14].name.take(10) =~= "canonical-"@);
    }
    assert(starts_with(c[15].name, "canonical-"@) == true) by {
        reveal_strlit("canonical-when-guard");
        assert(c[15].name.take(10) =~= "canonical-"@);
    }
    assert(starts_with(c[16].name, "canonical-"@) == false) by {
        reveal_strlit("echo-loop");
        if c[16].name.len() >= 10 {
            assert(c[16].name.take(10)[0] != "canonical-"@[0]);
        }
    }
    assert(starts_with(c[17].name, "canonical-"@) == false) by {
        reveal_strlit("factorial");
        if c[17].name.len() >= 10 {
            assert(c[17].name.take(10)[0] != "canonical-"@[0]);
        }
    }
    assert(starts_with(c[18].name, "canonical-"@) == false) by {
        reveal_strlit("function-form-let");
        if c[18].name.len() >= 10 {
            assert(c[18].name.take(10)[0] != "canonical-"@[0]);
        }
    }
    assert(starts_with(c[19].name, "canonical-"@) == false) by {
        reveal_strlit("function-keyword");
        if c[19].name.len() >= 10 {
            assert(c[19].name.take(10)[0] != "canonical-"@[0]);
        }
    }
    assert(starts_with(c[20].name, "canonical-"@) == false) by {
        reveal_strlit("function-pattern-args");
        if c[20].name.len() >= 10 {
            assert(c[20].name.take(10)[0] != "canonical-"@[0]);
        }
    }
    assert(starts_with(c[21].name, "canonical-"@) == false) by {
        reveal_strlit("functions");
        if c[21].name.len() >= 10 {
            assert(c[21].name.take(10)[0] != "canonical-"@[0]);
        }
    }
    assert(starts_with(c[22].name, "canonical-"@) == false) by {
        reveal_strlit("guess");
        if c[22].name.len() >= 10 {
            assert(c[22].name.take(10)[0] != "canonical-"@[0]);
        }
    }
    assert(starts_with(c[23].name, "canonical-"@) == false) by {
        reveal_strlit("hello");
        if c[23].name.len() >= 10 {
            assert(c[23].name.take(10)[0] != "canonical-"@[0]);
        }
    }
    assert(starts_with(c[24].name, "canonical-"@) == false) by {
        reveal_strlit("hello-world");
        if c[24].name.len() >= 10 {
            assert(c[24].name.take(10)[0] != "canonical-"@[0]);
        }
    }
    assert(starts_with(c[25].name, "canonical-"@) == false) by {
        reveal_strlit("higher-order-lists");
        if c[25].name.len() >= 10 {
            assert(c[25].name.take(10)[0] != "canonical-"@[0]);
        }
    }
    assert(starts_with(c[26].name, "canonical-"@) == false) by {
        reveal_strlit("led-blink");
        if c[26].name.len() >= 10 {
            assert(c[26].name.take(10)[0] != "canonical-"@[0]);
        }
    }
    assert(starts_with(c[27].name, "canonical-"@) == false) by {
        reveal_strlit("led-toggle");
        if c[27].name.len() >= 10 {
            assert(c[27].name.take(10)[0] != "canonical-"@[0]);
        }
    }
    assert(starts_with(c[28].name, "canonical-"@) == false) by {
        reveal_strlit("let-destructure");
        if c[28].name.len() >= 10 {
            assert(c[28].name.take(10)[0] != "canonical-"@[0]);
        }
    }
    assert(starts_with(c[29].name, "canonical-"@) == false) by {
        reveal_strlit("list-module");
        if c[29].name.len() >= 10 {
            assert(c[29].name.take(10)[0] != "canonical-"@[0]);
        }
    }
    assert(starts_with(c[30].name, "canonical-"@) == false) by {
        reveal_strlit("lists");
        if c[30].name.len() >= 10 {
            assert(c[30].name.take(10)[0] != "canonical-"@[0]);
        }
    }
    assert(starts_with(c[31].name, "canonical-"@) == false) by {
        reveal_strlit("lists-pairs-demo");
        if c[31].name.len() >= 10 {
            assert(c[31].name.take(10)[0] != "canonical-"@[0]);
        }
    }
    assert(starts_with(c[32].name, "canonical-"@) == false) by {
        reveal_strlit("modules");
        if c[32].name.len() >= 10 {
            assert(c[32].name.take(10)[0] != "canonical-"@[0]);
        }
    }
    assert(starts_with(c[33].name, "canonical-"@) == false) by {
        reveal_strlit("modules-multifile");
        if c[33].name.len() >= 10 {
            assert(c[33].name.take(10)[0] != "canonical-"@[0]);
        }
    }
    assert(starts_with(c[34].name, "canonical-"@) == false) by {
        reveal_strlit("multi-arg");
        if c[34].name.len() >= 10 {
            assert(c[34].name.take(10)[0] != "canonical-"@[0]);
        }
    }
    assert(starts_with(c[35].name, "canonical-"@) == false) by {
        reveal_strlit("named-adts");
        if c[35].name.len() >= 10 {
            assert(c[35].name.take(10)[0] != "canonical-"@[0]);
        }
    }
    assert(starts_with(c[36].name, "canonical-"@) == false) by {
        reveal_strlit("options");
        if c[36].name.len() >= 10 {
            assert(c[36].name.take(10)[0] != "canonical-"@[0]);
        }
    }
    assert(starts_with(c[37].name, "canonical-"@) == false) by {
        reveal_strlit("pairs");
        if c[37].name.len() >= 10 {
            assert(c[37].name.take(10)[0] != "canonical-"@[0]);
        }
    }
    assert(starts_with(c[38].name, "canonical-"@) == false) by {
        reveal_strlit("patterns");
        if c[38].name.len() >= 10 {
            assert(c[38].name.take(10)[0] != "canonical-"@[0]);
        }
    }
    assert(starts_with(c[39].name, "canonical-"@) == false) by {
        reveal_strlit("print");
        if c[39].name.len() >= 10 {
            assert(c[39].name.take(10)[0] != "canonical-"@[0]);
        }
    }
    assert(starts_with(c[40].name, "canonical-"@) == false) by {
        reveal_strlit("repl-session");
        if c[40].name.len() >= 10 {
            assert(c[40].name.take(10)[0] != "canonical-"@[0]);
        }
    }
    assert(starts_with(c[41].name, "canonical-"@) == false) by {
        reveal_strlit("sequencing");
        if c[41].name.len() >= 10 {
            assert(c[41].name.take(10)[0] != "canonical-"@[0]);
        }
    }
    assert(starts_with(c[42].name, "canonical-"@) == false) by {
        reveal_strlit("string-conversion");
        if c[42].name.len() >= 10 {
            assert(c[42].name.take(10)[0] != "canonical-"@[0]);
        }
    }
    assert(starts_with(c[43].name, "canonical-"@) == false) by {
        reveal_strlit("string-equality");
        if c[43].name.len() >= 10 {
            assert(c[43].name.take(10)[0] != "canonical-"@[0]);
        }
    }
    assert(starts_with(c[44].name, "canonical-"@) == false) by {
        reveal_strlit("string-escapes");
        if c[44].name.len() >= 10 {
            assert(c[44].name.take(10)[0] != "canonical-"@[0]);
        }
    }
    assert(starts_with(c[45].name, "canonical-"@) == false) by {
        reveal_strlit("strings");
        if c[45].name.len() >= 10 {
            assert(c[45].name.take(10)[0] != "canonical-"@[0]);
        }
    }
    assert(starts_with(c[46].name, "canonical-"@) == false) by {
        reveal_strlit("tco-countdown");
        if c[46].name.len() >= 10 {
            assert(c[46].name.take(10)[0] != "canonical-"@[0]);
        }
    }
    assert(starts_with(c[47].name, "canonical-"@) == false) by {
        reveal_strlit("text-adventure");
        if c[47].name.len() >= 10 {
            assert(c[47].name.take(10)[0] != "canonical-"@[0]);
        }
    }
    assert(starts_with(c[48].name, "canonical-"@) == false) by {
        reveal_strlit("toplevel-let");
        if c[48].name.len() >= 10 {
            assert(c[48].name.take(10)[0] != "canonical-"@[0]);
        }
    }
    assert(starts_with(c[49].name, "canonical-"@) == false) by {
        reveal_strlit("tuple-arity");
        if c[49].name.len() >= 10 {
            assert(c[49].name.take(10)[0] != "canonical-"@[0]);
        }
    }
    assert(starts_with(c[50].name, "canonical-"@) == false) by {
        reveal_strlit("variants-with-payload");
        if c[50].name.len() >= 10 {
            assert(c[50].name.take(10)[0] != "canonical-"@[0]);
        }
    }
    assert(starts_with(c[51].name, "canonical-"@) == false) by {
        reveal_strlit("when-guards");
        if c[51].name.len() >= 10 {
            assert(c[51].name.take(10)[0] != "canonical-"@[0]);
        }
    }
    assert forall|i: int| 0 <= i < c.len() implies ((#[trigger] c[i]).category
        == DemoCategory::Minimal <==> i < 16) && (c[i].category == DemoCategory::Minimal
        <==> starts_with(c[i].name, "canonical-"@)) && (c[i].category == DemoCategory::Minimal
        ==> !c[i].interactive && c[i].aux.len() == 0) by {
    }
}

/// The demos that read input after their source are exactly `echo-loop`,
/// `guess`, `repl-session` and `text-adventure`.
#[verifier::spinoff_prover]
#[verifier::rlimit(50)]
pub proof fn lemma_catalog_interactive()
    ensures
        forall|i: int|
            0 <= i < catalog().len() ==> ((#[trigger] catalog()[i]).interactive
                <==> is_interactive_name(catalog()[i].name)),
{
    lemma_catalog_names_entries();
    lemma_catalog_alphabetised();
    let c = catalog();
    let s = catalog_names();
    assert(s[16] == "echo-loop"@ && s[22] == "guess"@ && s[40] == "repl-session"@ && s[47]
        == "text-adventure"@);
    assert forall|i: int| 0 <= i < c.len() implies ((#[trigger] c[i]).interactive
        <==> is_interactive_name(c[i].name)) by {
        assert(c[i].name == s[i]);
        if i != 16 && i != 22 && i != 40 && i != 47 {
            assert(s[i] != s[16] && s[i] != s[22] && s[i] != s[40] && s[i] != s[47]);
        }
    }
}

/// Only `modules-multifile` has auxiliary files: the one file `math.ml`.
#[verifier::spinoff_prover]
#[verifier::rlimit(50)]
pub proof fn lemma_catalog_aux()
    ensures
        forall|i: int|
            0 <= i < catalog().len() ==> ((#[trigger] catalog()[i]).aux.len() > 0
                <==> catalog()[i].name == "modules-multifile"@),
        forall|i: int|
            0 <= i < catalog().len() && (#[trigger] catalog()[i]).name == "modules-multifile"@
                ==> catalog()[i].aux == seq![("math.ml"@, "let add x y = x + y\nlet square x = x * x\nlet double x = add x x\n"@)],
{
    lemma_catalog_names_entries();
    lemma_catalog_alphabetised();
    let c = catalog();
    let s = catalog_names();
    assert(s[33] == "modules-multifile"@);
    assert forall|i: int| 0 <= i < c.len() implies ((#[trigger] c[i]).aux.len() > 0
        <==> c[i].name == "modules-multifile"@) && (c[i].name == "modules-multifile"@ ==> c[i].aux
        == seq![("math.ml"@, "let add x y = x + y\nlet square x = x * x\nlet double x = add x x\n"@)]) by {
        assert(c[i].name == s[i]);
        if i != 33 {
            assert(s[i] != s[33]);
        }
    }
}

/// `hello` is in the catalog, so the page opens on it.
pub proof fn lemma_default_demo_is_hello()
    ensures
        position_of(catalog_names(), "hello"@) == Some(23int),
        catalog_names()[23] == "hello"@,
{
    lemma_catalog_names_entries();
    lemma_catalog_alphabetised();
    assert(catalog_names()[23] == catalog()[23].name);
    lemma_position_of_distinct(catalog_names(), 23);
}

/// The demo catalog, in alphabetical order of names.
#[verifier::rlimit(100)]
pub fn demos() -> (r: Vec<Demo>)
    ensures
        r@.map_values(|d: Demo| d.summary()) == catalog(),
{
    let mut v: Vec<Demo> = Vec::new();
    v.push(
        Demo {
            name: "canonical-arith",
            source: "1 + 2 * 3\n",
            interactive: false,
            description: "Operator precedence: `1 + 2 * 3` evaluates `*` before `+` -> 7.",
            auxiliary_files: Vec::new(),
            category: DemoCategory::Minimal,
        },
    );
    v.push(
        Demo {
            name: "canonical-fact",
            source: "let rec fact n = if n = 0 then 1 else n * fact (n - 1) in fact 5\n",
            interactive: false,
            description: "Recursive factorial via `let rec` (5! = 120).",
            auxiliary_files: Vec::new(),
            category: DemoCategory::Minimal,
        },
    );
    v.push(
        Demo {
            name: "canonical-fib",
            source: "let rec fib n = if n < 2 then n else fib (n - 1) + fib (n - 2) in print_int (fib 10)\n",
            interactive: false,
            description: "Recursive Fibonacci, prints `fib 10` = 55.",
            auxiliary_files: Vec::new(),
            category: DemoCategory::Minimal,
        },
    );
    v.push(
        Demo {
            name: "canonical-int-literal",
            source: "42\n",
            interactive: false,
            description: "The smallest possible expression: an integer literal `42`.",
            auxiliary_files: Vec::new(),
            category: DemoCategory::Minimal,
        },
    );
    v.push(
        Demo {
            name: "canonical-lambda-app",
            source: "(fun x -> x * 2) 5\n",
            interactive: false,
            description: "Apply an inline lambda: `(fun x -> x * 2) 5` -> 10.",
            auxiliary_files: Vec::new(),
            category: DemoCategory::Minimal,
        },
    );
    v.push(
        Demo {
            name: "canonical-let-in",
            source: "let x = 10 in x * x\n",
            interactive: false,
            description: "Local binding via `let ... in`: `let x = 10 in x * x` -> 100.",
            auxiliary_files: Vec::new(),
            category: DemoCategory::Minimal,
        },
    );
    v.push(
        Demo {
            name: "canonical-list-filter",
            source: "List.filter (fun x -> x mod 2 = 0) [1; 2; 3; 4; 5; 6]\n",
            interactive: false,
            description: "`List.filter` with an inline predicate (keep evens).",
            auxiliary_files: Vec::new(),
            category: DemoCategory::Minimal,
        },
    );
    v.push(
        Demo {
            name: "canonical-list-fold-left",
            source: "List.fold_left (fun acc x -> acc + x) 0 [1; 2; 3; 4]\n",
            interactive: false,
            description: "`List.fold_left` summing `[1;2;3;4]` -> 10.",
            auxiliary_files: Vec::new(),
            category: DemoCategory::Minimal,
        },
    );
    v.push(
        Demo {
            name: "canonical-list-map",
            source: "List.map (fun x -> x * 2) [1; 2; 3]\n",
            interactive: false,
            description: "`List.map` doubling `[1;2;3]` -> `[2; 4; 6]`.",
            auxiliary_files: Vec::new(),
            category: DemoCategory::Minimal,
        },
    );
    v.push(
        Demo {
            name: "canonical-match-int",
            source: "match 5 with 0 -> 100 | 1 -> 101 | _ -> 999\n",
            interactive: false,
            description: "Integer `match` with literal arms and `_` fallthrough.",
            auxiliary_files: Vec::new(),
            category: DemoCategory::Minimal,
        },
    );
    v.push(
        Demo {
            name: "canonical-print-length",
            source: "print_endline (string_of_int (List.length [1; 2; 3]))\n",
            interactive: false,
            description: "Compose `print_endline`, `string_of_int`, `List.length` to print `3`.",
            auxiliary_files: Vec::new(),
            category: DemoCategory::Minimal,
        },
    );
    v.push(
        Demo {
            name: "canonical-safe-div",
            source: "let safe_div x y = if y = 0 then None else Some (x / y) in safe_div 10 2\n",
            interactive: false,
            description: "Option-returning division: `safe_div 10 2` -> `Some 5`.",
            auxiliary_files: Vec::new(),
            category: DemoCategory::Minimal,
        },
    );
    v.push(
        Demo {
            name: "canonical-some-42",
            source: "Some 42\n",
            interactive: false,
            description: "Constructing `Some 42` -- a one-line option intro.",
            auxiliary_files: Vec::new(),
            category: DemoCategory::Minimal,
        },
    );
    v.push(
        Demo {
            name: "canonical-string-concat",
            source: "\"OCaml\" ^ \" rocks\"\n",
            interactive: false,
            description: "String concatenation with `^`: `\"OCaml\" ^ \" rocks\"`.",
            auxiliary_files: Vec::new(),
            category: DemoCategory::Minimal,
        },
    );
    v.push(
        Demo {
            name: "canonical-swap",
            source: "let swap (x, y) = (y, x) in swap (1, 2)\n",
            interactive: false,
            description: "Tuple-destructuring function arg: `let swap (x, y) = (y, x)`.",
            auxiliary_files: Vec::new(),
            category: DemoCategory::Minimal,
        },
    );
    v.push(
        Demo {
            name: "canonical-when-guard",
            source: "let abs x = match x with n when n < 0 -> -n | n -> n in abs (-5)\n",
            interactive: false,
            description: "`match ... when <guard>` arm: minimal `abs` implementation.",
            auxiliary_files: Vec::new(),
            category: DemoCategory::Minimal,
        },
    );
    v.push(
        Demo {
            name: "echo-loop",
            source: "let rec loop = fun u -> let s = read_line () in if s = \"quit\" then (print_endline \"bye\"; exit 0) else (print_endline s; loop ()) in loop ()\n",
            interactive: true,
            description: "Type any text and it's echoed back. Type `quit` to exit.",
            auxiliary_files: Vec::new(),
            category: DemoCategory::Standard,
        },
    );
    v.push(
        Demo {
            name: "factorial",
            source: "let rec fact = fun n -> if n = 0 then 1 else n * fact (n - 1) in print_int (fact 5)\n",
            interactive: false,
            description: "Recursive factorial via `let rec`; computes 5!.",
            auxiliary_files: Vec::new(),
            category: DemoCategory::Standard,
        },
    );
    v.push(
        Demo {
            name: "function-form-let",
            source: "let f x = x + 1 in f 5\nlet square x = x * x in square 7\nlet add x y = x + y in add 20 22\nlet rec fact n = if n = 0 then 1 else n * fact (n - 1) in fact 5\nlet rec fib n = if n < 2 then n else fib (n-1) + fib (n-2) in fib 7\nlet compose f g x = f (g x) in compose (fun x -> x + 1) (fun x -> x * 2) 10\nlet safe_div x y = if y = 0 then None else Some (x / y) in safe_div 42 6\n",
            interactive: false,
            description: "Sugared `let f x y = body` form (curried function definitions).",
            auxiliary_files: Vec::new(),
            category: DemoCategory::Standard,
        },
    );
    v.push(
        Demo {
            name: "function-keyword",
            source: "let f = function 0 -> 100 | 1 -> 101 | _ -> 999 in f 0\nlet f = function 0 -> 100 | 1 -> 101 | _ -> 999 in f 1\nlet f = function 0 -> 100 | 1 -> 101 | _ -> 999 in f 5\nlet f = function [] -> 0 | h :: t -> h in f [42; 99]\n(function 0 -> 100 | _ -> 0) 0\nlet classify = function Some n -> n | None -> 0 in classify (Some 42)\nlet classify = function Some n -> n | None -> 0 in classify None\n",
            interactive: false,
            description: "The `function` keyword: shorthand for `fun x -> match x with ...`.",
            auxiliary_files: Vec::new(),
            category: DemoCategory::Standard,
        },
    );
    v.push(
        Demo {
            name: "function-pattern-args",
            source: "let swap (x, y) = (y, x) in swap (1, 2)\nlet sum (a, (b, c)) = a + b + c in sum (1, (2, 3))\nlet head (h :: _) = h in head [1; 2; 3]\nlet f () = 42 in f ()\nlet add (x, y) = x + y in add (3, 4)\n",
            interactive: false,
            description: "Destructuring patterns directly in function arguments: `let swap (x, y) = ...`.",
            auxiliary_files: Vec::new(),
            category: DemoCategory::Standard,
        },
    );
    v.push(
        Demo {
            name: "functions",
            source: "let f = fun x -> x + 1 in f 41\n",
            interactive: false,
            description: "First-class functions and `let` bindings.",
            auxiliary_files: Vec::new(),
            category: DemoCategory::Standard,
        },
    );
    v.push(
        Demo {
            name: "guess",
            source: "let rec loop = fun u -> let g = int_of_string (read_line ()) in if g = 42 then (print_endline \"correct!\"; exit 0) else if g < 42 then (print_endline \"too low\"; loop ()) else (print_endline \"too high\"; loop ()) in (print_endline \"Guess a number 1..100.\"; loop ())\n",
            interactive: true,
            description: "Number-guessing game: the target is 42. Enter an integer; the demo replies `too low`, `too high`, or `correct!`.",
            auxiliary_files: Vec::new(),
            category: DemoCategory::Standard,
        },
    );
    v.push(
        Demo {
            name: "hello",
            source: "print_int 42\n",
            interactive: false,
            description: "Smallest possible program: print the integer 42.",
            auxiliary_files: Vec::new(),
            category: DemoCategory::Standard,
        },
    );
    v.push(
        Demo {
            name: "hello-world",
            source: "print_endline \"Hello, World!\"\n",
            interactive: false,
            description: "Print the string `\"Hello, World!\"` via `print_endline`.",
            auxiliary_files: Vec::new(),
            category: DemoCategory::Standard,
        },
    );
    v.push(
        Demo {
            name: "higher-order-lists",
            source: "List.map (fun x -> x * 2) [1;2;3]\nList.map (fun x -> x + 1) []\nList.filter (fun x -> x mod 2 = 0) [1;2;3;4;5;6]\nList.filter (fun x -> x > 10) [1;5;15;20;3]\nList.fold_left (fun acc x -> acc + x) 0 [1;2;3;4]\nList.fold_left (fun acc x -> acc * x) 1 [1;2;3;4;5]\nList.iter (fun x -> print_int x) [10;20;30]\nlet inc x = x + 1 in List.map inc [1;2;3]\nList.fold_left (fun acc x -> x :: acc) [] [1;2;3]\n",
            interactive: false,
            description: "`List.map`, `List.filter`, `List.fold_left`, `List.iter` with inline lambdas.",
            auxiliary_files: Vec::new(),
            category: DemoCategory::Standard,
        },
    );
    v.push(
        Demo {
            name: "led-blink",
            source: "led_on (); print_int 1; led_off (); print_int 0; led_on (); print_int 1\n",
            interactive: false,
            description: "Drive the COR24 LED via `led_on` / `led_off`. Browser stubs the LED.",
            auxiliary_files: Vec::new(),
            category: DemoCategory::Standard,
        },
    );
    v.push(
        Demo {
            name: "led-toggle",
            source: "let s = switch () in set_led s; print_int (if s then 1 else 0)\n",
            interactive: false,
            description: "Read the COR24 switch and reflect it on the LED.",
            auxiliary_files: Vec::new(),
            category: DemoCategory::Standard,
        },
    );
    v.push(
        Demo {
            name: "let-destructure",
            source: "let (a, b) = (1, 2) in a + b\nlet (x, y) = (10, 20) in let (p, q) = (3, 4) in x + y + p + q\nlet h :: t = [1; 2; 3] in h\nlet [a; b; c] = [10; 20; 30] in a + b + c\nlet Some n = Some 99 in n + 1\nlet (x, [a; b]) = (1, [2; 3]) in x + a + b\n",
            interactive: false,
            description: "Destructuring `let (a, b) = ...`, `let h :: t = ...`, and friends.",
            auxiliary_files: Vec::new(),
            category: DemoCategory::Standard,
        },
    );
    v.push(
        Demo {
            name: "list-module",
            source: "List.length [1;2;3]\nList.length []\nList.rev [1;2;3]\nList.rev []\nList.hd [42; 99]\nList.tl [1; 2; 3]\nList.is_empty nil\nList.is_empty [1]\n",
            interactive: false,
            description: "`List.length`, `List.rev`, qualified-name lookups.",
            auxiliary_files: Vec::new(),
            category: DemoCategory::Standard,
        },
    );
    v.push(
        Demo {
            name: "lists",
            source: "[]\n[1]\n[1; 2; 3]\n1 :: nil\nis_empty nil\nis_empty [1]\nhd [42]\ntl [1; 2; 3]\n",
            interactive: false,
            description: "List literals, cons, head/tail, is_empty.",
            auxiliary_files: Vec::new(),
            category: DemoCategory::Standard,
        },
    );
    v.push(
        Demo {
            name: "lists-pairs-demo",
            source: "let rec sum = fun l -> if is_empty l then 0 else hd l + sum (tl l) in sum [1;2;3;4;5]\nlet rec length = fun l -> if is_empty l then 0 else 1 + length (tl l) in length [10;20;30]\nlet rec map = fun f l -> if is_empty l then [] else (f (hd l)) :: (map f (tl l)) in map (fun x -> x * 2) [1;2;3]\nlet p = (3, 4) in fst p * fst p + snd p * snd p\nList.length [1;2;3;4;5]\nList.rev [1;2;3;4;5]\nlet swap = fun p -> (snd p, fst p) in swap (1, 2)\nlet rec countdown = fun n -> if n = 0 then [] else n :: countdown (n - 1) in countdown 5\n",
            interactive: false,
            description: "Sum, length, map, swap, countdown \u{2014} lists + pairs in one program.",
            auxiliary_files: Vec::new(),
            category: DemoCategory::Standard,
        },
    );
    v.push(
        Demo {
            name: "modules",
            source: "let __module = \"Math\"        (* enter module Math *)\nlet add x y = x + y          (* defines Math.add *)\nlet double x = add x x       (* Math.double; unqualified add resolves within Math *)\nlet __module = \"Main\"        (* switch to Main; Math's bindings now require qualification *)\nMath.add 2 3                 (* qualified dispatch into Math --> 5 *)\nMath.double 9                (* qualified --> 18 *)\nMath.add 1 2                 (* the right way: qualify into Math --> 3 *)\nadd 1 2                      (* the wrong way: unqualified add lives in Math, not Main -- EVAL ERROR expected *)\n",
            interactive: false,
            description: "User-defined module namespaces via the `let __module = \"...\"` directive. Defines `Math.add`/`Math.double`, switches to `Main`, shows three qualified calls succeeding -- then a deliberate unqualified `add 1 2` to demonstrate namespace isolation. The trailing `EVAL ERROR` is the punchline; the language has no try/catch, the REPL just resets per line.",
            auxiliary_files: Vec::new(),
            category: DemoCategory::Standard,
        },
    );
    v.push(
        Demo {
            name: "modules-multifile",
            source: "Math.add 2 3\nMath.square 5\nMath.double 7\n",
            interactive: false,
            description: "Multi-file module demo (Phase 1): `math.ml` defines `Math.add` / `Math.square` / `Math.double`; `main.ml` calls them by qualified name. The runner concatenates the files with synthesized `let __module = \"...\"` directives, matching the CLI's `run-ocaml.sh` behaviour. The editor shows only `main.ml`; the aux file is baked in read-only.",
            auxiliary_files: vec![AuxFile { name: "math.ml", source: "let add x y = x + y\nlet square x = x * x\nlet double x = add x x\n" }],
            category: DemoCategory::Standard,
        },
    );
    v.push(
        Demo {
            name: "multi-arg",
            source: "let add = fun x y -> x + y in print_int (add 20 22)\n",
            interactive: false,
            description: "Multi-argument curried function via `fun x y -> ...`.",
            auxiliary_files: Vec::new(),
            category: DemoCategory::Standard,
        },
    );
    v.push(
        Demo {
            name: "named-adts",
            source: "type color = Red | Green | Blue\nRed\nGreen\nBlue\nmatch Red with Red -> 1 | Green -> 2 | Blue -> 3\nmatch Green with Red -> 1 | Green -> 2 | Blue -> 3\nmatch Blue with Red -> 1 | Green -> 2 | Blue -> 3\nlet name = function Red -> \"red\" | Green -> \"green\" | Blue -> \"blue\" in name Blue\ntype shape = Circle | Square | Triangle\nmatch Circle with Red -> 1 | Green -> 2 | Blue -> 3 | Circle -> 10 | Square -> 11 | Triangle -> 12\n",
            interactive: false,
            description: "Sum types via `type T = C1 | C2 | ...` and `match` expressions.",
            auxiliary_files: Vec::new(),
            category: DemoCategory::Standard,
        },
    );
    v.push(
        Demo {
            name: "options",
            source: "None\nSome 42\nSome [1; 2; 3]\nSome (1, 2)\nlet x = Some 7 in x\nSome (Some 3)\n",
            interactive: false,
            description: "The built-in `option` type: `None` and `Some x`.",
            auxiliary_files: Vec::new(),
            category: DemoCategory::Standard,
        },
    );
    v.push(
        Demo {
            name: "pairs",
            source: "(1, 2)\nfst (1, 2)\nsnd (10, 20)\nlet p = (10, 20) in fst p + snd p\n(1, [2; 3])\n(fst (1, 2), snd (3, 4))\n",
            interactive: false,
            description: "Tuple construction with `fst` / `snd` accessors.",
            auxiliary_files: Vec::new(),
            category: DemoCategory::Standard,
        },
    );
    v.push(
        Demo {
            name: "patterns",
            source: "let rec sum = fun l -> match l with [] -> 0 | h :: t -> h + sum t in sum [1;2;3;4;5]\nlet rec length = fun l -> match l with [] -> 0 | _ :: t -> 1 + length t in length [10;20;30]\nlet rec map = fun f l -> match l with [] -> [] | h :: t -> f h :: map f t in map (fun x -> x * 2) [1;2;3]\nlet rec filter = fun f l -> match l with [] -> [] | h :: t -> if f h then h :: filter f t else filter f t in filter (fun x -> x mod 2 = 0) [1;2;3;4;5;6]\nlet safe_div = fun x y -> if y = 0 then None else Some (x / y) in safe_div 10 3\nlet safe_div = fun x y -> if y = 0 then None else Some (x / y) in safe_div 10 0\nmatch Some 7 with None -> 0 | Some n -> n + 1\nlet classify = fun n -> match n with 0 -> 100 | 1 -> 101 | _ -> 999 in classify 0\nlet classify = fun n -> match n with 0 -> 100 | 1 -> 101 | _ -> 999 in classify 5\nlet swap = fun p -> match p with (a, b) -> (b, a) in swap (1, 2)\n",
            interactive: false,
            description: "Pattern matching across lists, tuples, options, and literals.",
            auxiliary_files: Vec::new(),
            category: DemoCategory::Standard,
        },
    );
    v.push(
        Demo {
            name: "print",
            source: "let x = 41 + 1 in print_int x\n",
            interactive: false,
            description: "`print_int` and `putc` writing through the UART.",
            auxiliary_files: Vec::new(),
            category: DemoCategory::Standard,
        },
    );
    v.push(
        Demo {
            name: "repl-session",
            source: "42\nlet x = 1 + 1 in x\nlet f = fun x -> x * 2 in f 21\nlet rec fact = fun n -> if n = 0 then 1 else n * fact (n - 1) in fact 5\nprint_int 99\n",
            interactive: true,
            description: "Multi-expression REPL session -- type more lines after the seed runs. Each input must be a complete expression: `let x = 42 in x`, not bare `let x = 42`.",
            auxiliary_files: Vec::new(),
            category: DemoCategory::Standard,
        },
    );
    v.push(
        Demo {
            name: "sequencing",
            source: "print_int 1; print_int 2; print_int 3\n",
            interactive: false,
            description: "Semicolon-sequenced expressions evaluated left-to-right.",
            auxiliary_files: Vec::new(),
            category: DemoCategory::Standard,
        },
    );
    v.push(
        Demo {
            name: "string-conversion",
            source: "string_of_int 42\nstring_of_int 0\nstring_of_int (-7)\nstring_of_int 123456\nint_of_string \"100\"\nint_of_string \"-42\"\nint_of_string \"0\"\nprint_endline (string_of_int (List.length [1;2;3]))\nstring_of_int (List.fold_left (fun a x -> a + x) 0 [1;2;3;4;5])\nint_of_string (string_of_int 789)\nint_of_string \"abc\"\nint_of_string \"\"\n",
            interactive: false,
            description: "`string_of_int` / `int_of_string` round-trips, including malformed inputs.",
            auxiliary_files: Vec::new(),
            category: DemoCategory::Standard,
        },
    );
    v.push(
        Demo {
            name: "string-equality",
            source: "\"abc\" = \"abc\"\n\"abc\" = \"abd\"\n\"abc\" = \"abcd\"\n\"\" = \"\"\n\"hello\" <> \"world\"\n\"same\" <> \"same\"\nif \"quit\" = \"quit\" then print_endline \"yes\" else print_endline \"no\"\nif \"quit\" = \"keep\" then print_endline \"yes\" else print_endline \"no\"\n",
            interactive: false,
            description: "Structural `=` and `<>` on strings, including in `if` conditions.",
            auxiliary_files: Vec::new(),
            category: DemoCategory::Standard,
        },
    );
    v.push(
        Demo {
            name: "string-escapes",
            source: "let s = \"line1\\nline2\" in print_endline s\nlet s = \"tab\\tbackslash\\\\quote\\\"\" in print_endline s\nString.length \"a\\nb\"\n",
            interactive: false,
            description: "Escape sequences in string literals: `\\n`, `\\t`, `\\\\`, `\\\"`.",
            auxiliary_files: Vec::new(),
            category: DemoCategory::Standard,
        },
    );
    v.push(
        Demo {
            name: "strings",
            source: "\"Hello\"\n\"OCaml\" ^ \" rocks\"\nprint_endline \"Hello, World!\"\nString.length \"abcde\"\nString.length \"\"\n\"x\" ^ \"y\" ^ \"z\"\nlet greeting = \"Hello, \" ^ \"World!\" in print_endline greeting\n",
            interactive: false,
            description: "String literals, `^` concatenation, `print_endline`, `String.length`.",
            auxiliary_files: Vec::new(),
            category: DemoCategory::Standard,
        },
    );
    v.push(
        Demo {
            name: "tco-countdown",
            source: "let rec count = fun n -> if n = 0 then print_endline \"done\" else (print_int n; count (n - 1)) in count 100\n",
            interactive: false,
            description: "Tail-call optimisation: count down from 100 without growing the stack.",
            auxiliary_files: Vec::new(),
            category: DemoCategory::Standard,
        },
    );
    v.push(
        Demo {
            name: "text-adventure",
            source: "type room = Cave | Hall | Garden | Outside\nlet describe r = match r with Cave -> print_endline \"Damp cave. A lamp lies here. Exits: n.\" | Hall -> print_endline \"Pillared hall. Exits: s, e, n (out).\" | Garden -> print_endline \"Sunlit garden. A key glints here. Exits: w.\" | Outside -> print_endline \"You step into daylight. The end!\" in let item r = match r with Cave -> \"lamp\" | Garden -> \"key\" | _ -> \"\" in let go r d = match r with Cave -> (if d = \"n\" then Hall else Cave) | Hall -> (if d = \"s\" then Cave else if d = \"e\" then Garden else if d = \"n\" then Outside else Hall) | Garden -> (if d = \"w\" then Hall else Garden) | Outside -> Outside in let rec show inv = match inv with [] -> () | h :: t -> (print_endline h; show t) in let rec loop st = let r = fst st in let inv = snd st in let c = read_line () in if c = \"quit\" then exit 0 else if c = \"look\" then (describe r; loop st) else if c = \"inventory\" then (show inv; loop st) else if c = \"take\" then (if item r = \"\" then (print_endline \"nothing to take\"; loop st) else (print_endline (\"you take the \" ^ item r); loop (r, item r :: inv))) else (let r2 = go r c in describe r2; match r2 with Outside -> exit 0 | _ -> loop (r2, inv)) in (describe Cave; loop (Cave, []))\n",
            interactive: true,
            description: "Interactive text adventure: navigate rooms, pick up items. Commands: look, inventory, take, n/s/e/w, quit.",
            auxiliary_files: Vec::new(),
            category: DemoCategory::Standard,
        },
    );
    v.push(
        Demo {
            name: "toplevel-let",
            source: "let greet = fun name -> print_endline (\"hello, \" ^ name)\nlet _ = greet \"world\"\nlet _ = greet \"tuplet\"\nlet add x y = x + y\nlet _ = print_int (add 20 22)\nlet rec fact n = if n = 0 then 1 else n * fact (n - 1)\nlet _ = print_int (fact 5)\nlet (a, b) = (3, 4)\nlet _ = print_int (a + b)\nlet () = print_endline \"done\"\n",
            interactive: false,
            description: "Top-level `let` bindings, recursive `let rec`, tuple destructuring, `let () = ...`.",
            auxiliary_files: Vec::new(),
            category: DemoCategory::Standard,
        },
    );
    v.push(
        Demo {
            name: "tuple-arity",
            source: "let t = (1, 42, \"hello\") in match t with (0, _, s) -> print_endline (\"IDENT \" ^ s) | (1, n, _) -> print_endline (\"INT \" ^ string_of_int n) | (_, _, _) -> print_endline \"OTHER\"\nlet q = (1, 2, 3, 4) in match q with (1, _, 3, n) -> print_int n | (_, _, _, _) -> print_int 0\n(1, 2, 3)\nmatch (0, \"name\", 9) with (0, s, _) -> print_endline s | (_, _, _) -> print_endline \"miss\"\n",
            interactive: false,
            description: "Pattern matching against 3- and 4-tuples with wildcards.",
            auxiliary_files: Vec::new(),
            category: DemoCategory::Standard,
        },
    );
    v.push(
        Demo {
            name: "variants-with-payload",
            source: "type token = TInt of int | TIdent of string | TLArrow | TEOF\nlet dump tok = match tok with TInt n -> string_of_int n | TIdent s -> s | TLArrow -> \"<-\" | TEOF -> \"EOF\"\nlet _ = print_endline (dump (TInt 42))\nlet _ = print_endline (dump (TIdent \"abc\"))\nlet _ = print_endline (dump TLArrow)\nlet _ = print_endline (dump TEOF)\nTInt 7\ntype color = Red | Green | Blue\nlet color_name c = match c with Red -> \"red\" | Green -> \"green\" | Blue -> \"blue\"\nlet _ = print_endline (color_name Green)\n",
            interactive: false,
            description: "Variant constructors carrying payloads (`TInt of int`, `TIdent of string`) dispatched via `match`.",
            auxiliary_files: Vec::new(),
            category: DemoCategory::Standard,
        },
    );
    v.push(
        Demo {
            name: "when-guards",
            source: "let abs x = match x with n when n < 0 -> -n | n -> n in abs (-5)\nlet abs x = match x with n when n < 0 -> -n | n -> n in abs 7\nlet sign x = match x with n when n < 0 -> -1 | 0 -> 0 | _ -> 1 in sign (-10)\nlet sign x = match x with n when n < 0 -> -1 | 0 -> 0 | _ -> 1 in sign 0\nlet sign x = match x with n when n < 0 -> -1 | 0 -> 0 | _ -> 1 in sign 99\nmatch 7 with n when n > 10 -> \"big\" | n when n > 5 -> \"mid\" | _ -> \"small\"\n",
            interactive: false,
            description: "`match ... when <guard>` clauses for conditional pattern arms (abs, sign).",
            auxiliary_files: Vec::new(),
            category: DemoCategory::Standard,
        },
    );
    proof {
        assert(aux_views(v@[33].auxiliary_files@) =~= seq![("math.ml"@, "let add x y = x + y\nlet square x = x * x\nlet double x = add x x\n"@)]);
        assert(aux_views(v@[0].auxiliary_files@) =~= seq![]);
        assert(aux_views(v@[1].auxiliary_files@) =~= seq![]);
        assert(aux_views(v@[2].auxiliary_files@) =~= seq![]);
        assert(aux_views(v@[3].auxiliary_files@) =~= seq![]);
        assert(aux_views(v@[4].auxiliary_files@) =~= seq![]);
        assert(aux_views(v@[5].auxiliary_files@) =~= seq![]);
        assert(aux_views(v@[6].auxiliary_files@) =~= seq![]);
        assert(aux_views(v@[7].auxiliary_files@) =~= seq![]);
        assert(aux_views(v@[8].auxiliary_files@) =~= seq![]);
        assert(aux_views(v@[9].auxiliary_files@) =~= seq![]);
        assert(aux_views(v@[10].auxiliary_files@) =~= seq![]);
        assert(aux_views(v@[11].auxiliary_files@) =~= seq![]);
        assert(aux_views(v@[12].auxiliary_files@) =~= seq![]);
        assert(aux_views(v@[13].auxiliary_files@) =~= seq![]);
        assert(aux_views(v@[14].auxiliary_files@) =~= seq![]);
        assert(aux_views(v@[15].auxiliary_files@) =~= seq![]);
        assert(aux_views(v@[16].auxiliary_files@) =~= seq![]);
        assert(aux_views(v@[17].auxiliary_files@) =~= seq![]);
        assert(aux_views(v@[18].auxiliary_files@) =~= seq![]);
        assert(aux_views(v@[19].auxiliary_files@) =~= seq![]);
        assert(aux_views(v@[20].auxiliary_files@) =~= seq![]);
        assert(aux_views(v@[21].auxiliary_files@) =~= seq![]);
        assert(aux_views(v@[22].auxiliary_files@) =~= seq![]);
        assert(aux_views(v@[23].auxiliary_files@) =~= seq![]);
        assert(aux_views(v@[24].auxiliary_files@) =~= seq![]);
        assert(aux_views(v@[25].auxiliary_files@) =~= seq![]);
        assert(aux_views(v@[26].auxiliary_files@) =~= seq![]);
        assert(aux_views(v@[27].auxiliary_files@) =~= seq![]);
        assert(aux_views(v@[28].auxiliary_files@) =~= seq![]);
        assert(aux_views(v@[29].auxiliary_files@) =~= seq![]);
        assert(aux_views(v@[30].auxiliary_files@) =~= seq![]);
        assert(aux_views(v@[31].auxiliary_files@) =~= seq![]);
        assert(aux_views(v@[32].auxiliary_files@) =~= seq![]);
        assert(aux_views(v@[34].auxiliary_files@) =~= seq![]);
        assert(aux_views(v@[35].auxiliary_files@) =~= seq![]);
        assert(aux_views(v@[36].auxiliary_files@) =~= seq![]);
        assert(aux_views(v@[37].auxiliary_files@) =~= seq![]);
        assert(aux_views(v@[38].auxiliary_files@) =~= seq![]);
        assert(aux_views(v@[39].auxiliary_files@) =~= seq![]);
        assert(aux_views(v@[40].auxiliary_files@) =~= seq![]);
        assert(aux_views(v@[41].auxiliary_files@) =~= seq![]);
        assert(aux_views(v@[42].auxiliary_files@) =~= seq![]);
        assert(aux_views(v@[43].auxiliary_files@) =~= seq![]);
        assert(aux_views(v@[44].auxiliary_files@) =~= seq![]);
        assert(aux_views(v@[45].auxiliary_files@) =~= seq![]);
        assert(aux_views(v@[46].auxiliary_files@) =~= seq![]);
        assert(aux_views(v@[47].auxiliary_files@) =~= seq![]);
        assert(aux_views(v@[48].auxiliary_files@) =~= seq![]);
        assert(aux_views(v@[49].auxiliary_files@) =~= seq![]);
        assert(aux_views(v@[50].auxiliary_files@) =~= seq![]);
        assert(aux_views(v@[51].auxiliary_files@) =~= seq![]);
        let c = catalog();
        assert(v@.len() == c.len());
        assert(v@[0].summary() == c[0]);
        assert(v@[1].summary() == c[1]);
        assert(v@[2].summary() == c[2]);
        assert(v@[3].summary() == c[3]);
        assert(v@[4].summary() == c[4]);
        assert(v@[5].summary() == c[5]);
        assert(v@[6].summary() == c[6]);
        assert(v@[7].summary() == c[7]);
        assert(v@[8].summary() == c[8]);
        assert(v@[9].summary() == c[9]);
        assert(v@[10].summary() == c[10]);
        assert(v@[11].summary() == c[11]);
        assert(v@[12].summary() == c[12]);
        assert(v@[13].summary() == c[13]);
        assert(v@[14].summary() == c[14]);
        assert(v@[15].summary() == c[15]);
        assert(v@[16].summary() == c[16]);
        assert(v@[17].summary() == c[17]);
        assert(v@[18].summary() == c[18]);
        assert(v@[19].summary() == c[19]);
        assert(v@[20].summary() == c[20]);
        assert(v@[21].summary() == c[21]);
        assert(v@[22].summary() == c[22]);
        assert(v@[23].summary() == c[23]);
        assert(v@[24].summary() == c[24]);
        assert(v@[25].summary() == c[25]);
        assert(v@[26].summary() == c[26]);
        assert(v@[27].summary() == c[27]);
        assert(v@[28].summary() == c[28]);
        assert(v@[29].summary() == c[29]);
        assert(v@[30].summary() == c[30]);
        assert(v@[31].summary() == c[31]);
        assert(v@[32].summary() == c[32]);
        assert(v@[33].summary() == c[33]);
        assert(v@[34].summary() == c[34]);
        assert(v@[35].summary() == c[35]);
        assert(v@[36].summary() == c[36]);
        assert(v@[37].summary() == c[37]);
        assert(v@[38].summary() == c[38]);
        assert(v@[39].summary() == c[39]);
        assert(v@[40].summary() == c[40]);
        assert(v@[41].summary() == c[41]);
        assert(v@[42].summary() == c[42]);
        assert(v@[43].summary() == c[43]);
        assert(v@[44].summary() == c[44]);
        assert(v@[45].summary() == c[45]);
        assert(v@[46].summary() == c[46]);
        assert(v@[47].summary() == c[47]);
        assert(v@[48].summary() == c[48]);
        assert(v@[49].summary() == c[49]);
        assert(v@[50].summary() == c[50]);
        assert(v@[51].summary() == c[51]);
        assert forall|i: int| 0 <= i < v@.len() implies (#[trigger] v@[i]).summary() == c[i] by {
        }
        assert(v@.map_values(|d: Demo| d.summary()) =~= catalog());
    }
    v
}

} // verus!
