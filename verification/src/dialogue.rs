//! Dialogue scripts: the header of characters and the lines they speak.
//!
//! A script is read line by line. Its header lists the characters:
//!
//! ```text
//! {
//!     short = Full Name.traits
//! }
//! ```
//!
//! Every later non-blank line reads `short - what is said`.
use vstd::prelude::*;
use vstd::string::*;

use crate::character::{CharacterLocation, location_named};
use crate::text::{
    after,
    after_char,
    before,
    before_char,
    find,
    has_char,
    is_only,
    lemma_find_bounds,
    replace_braces,
    fill_braces,
    splits_in_two,
    splits_once,
    trim,
    trim_str,
};

verus! {

broadcast use vstd::string::group_string_axioms;

/// The texts of a sequence of strings.
pub open spec fn views(v: Seq<String>) -> Seq<Seq<char>> {
    v.map_values(|s: String| s@)
}

/// Index of the first line at or after `from` whose trimmed text is `target`,
/// or `lines.len()` when there is none.
pub open spec fn find_line(lines: Seq<Seq<char>>, from: int, target: Seq<char>) -> int
    decreases lines.len() - from,
{
    if from < 0 || from >= lines.len() {
        lines.len() as int
    } else if trim(lines[from]) == target {
        from
    } else {
        find_line(lines, from + 1, target)
    }
}

/// The index after line `k`, kept within the text.
pub open spec fn past(lines: Seq<Seq<char>>, k: int) -> int {
    if k < lines.len() {
        k + 1
    } else {
        lines.len() as int
    }
}

/// First line of the header: the one after the first line that reads `{`.
pub open spec fn head_start(lines: Seq<Seq<char>>) -> int {
    past(lines, find_line(lines, 0, seq!['{']))
}

/// The line that closes the header (`}`), or `lines.len()` when there is none.
pub open spec fn head_end(lines: Seq<Seq<char>>) -> int {
    find_line(lines, head_start(lines), seq!['}'])
}

/// First line after the header.
pub open spec fn body_start(lines: Seq<Seq<char>>) -> int {
    past(lines, head_end(lines))
}

/// The trimmed lines of the header.
pub open spec fn head_lines(lines: Seq<Seq<char>>) -> Seq<Seq<char>> {
    lines.subrange(head_start(lines), head_end(lines)).map_values(|l: Seq<char>| trim(l))
}

/// Every header line holds exactly one `=`.
pub open spec fn head_valid(lines: Seq<Seq<char>>) -> bool {
    forall|i: int| 0 <= i < head_lines(lines).len() ==> splits_in_two(#[trigger] head_lines(lines)[i], '=')
}

/// The short name that a header line defines: the trimmed text before `=`.
pub open spec fn short_name(t: Seq<char>) -> Seq<char> {
    trim(before(t, '='))
}

/// The full name that a header line defines: the text after `=`, cut at the
/// first `.` and then at the first `(`, trimmed.
pub open spec fn full_name(t: Seq<char>) -> Seq<char> {
    trim(before(before(after(t, '='), '.'), '('))
}

/// Short names of the script: `{}` (the player speaking), `_` (the player
/// thinking), then those of the header.
pub open spec fn short_names(lines: Seq<Seq<char>>) -> Seq<Seq<char>> {
    seq!["{}"@, "_"@] + head_lines(lines).map_values(|t: Seq<char>| short_name(t))
}

/// Full names of the script, in the order of `short_names`: `Я` for the player
/// speaking, an empty name for the player thinking, then those of the header.
pub open spec fn full_names(lines: Seq<Seq<char>>) -> Seq<Seq<char>> {
    seq!["Я"@, Seq::<char>::empty()] + head_lines(lines).map_values(|t: Seq<char>| full_name(t))
}

/// The trimmed non-blank lines from line `k` on.
pub open spec fn script(lines: Seq<Seq<char>>, k: int) -> Seq<Seq<char>>
    decreases lines.len() - k,
{
    if k < 0 || k >= lines.len() {
        Seq::empty()
    } else if trim(lines[k]).len() == 0 {
        script(lines, k + 1)
    } else {
        seq![trim(lines[k])] + script(lines, k + 1)
    }
}

/// The short name of the speaker of a script line: the trimmed text before `-`.
pub open spec fn speaker(t: Seq<char>) -> Seq<char> {
    trim(before(t, '-'))
}

/// What a script line says: the trimmed text after the first `-`.
pub open spec fn spoken(t: Seq<char>) -> Seq<char> {
    trim(after(t, '-'))
}

/// Index of the first `x` in `names`, or `names.len()` when there is none.
pub open spec fn index_in(names: Seq<Seq<char>>, x: Seq<char>) -> int
    decreases names.len(),
{
    if names.len() == 0 {
        0
    } else if names[0] == x {
        0
    } else {
        1 + index_in(names.drop_first(), x)
    }
}

/// The body lines of the script.
pub open spec fn body_lines(lines: Seq<Seq<char>>) -> Seq<Seq<char>> {
    script(lines, body_start(lines))
}

/// A body line holds a `-` and names a speaker of the header.
pub open spec fn body_line_valid(lines: Seq<Seq<char>>, t: Seq<char>) -> bool {
    &&& find(t, '-') < t.len()
    &&& index_in(short_names(lines), speaker(t)) < short_names(lines).len()
}

/// The script can be read: a valid header and valid body lines.
pub open spec fn script_valid(lines: Seq<Seq<char>>) -> bool {
    &&& head_valid(lines)
    &&& forall|i: int|
        0 <= i < body_lines(lines).len() ==> body_line_valid(lines, #[trigger] body_lines(lines)[i])
}

/// One entry of a script: the full name of the speaker and what is said.
pub open spec fn entry(lines: Seq<Seq<char>>, t: Seq<char>) -> (Seq<char>, Seq<char>) {
    (full_names(lines)[index_in(short_names(lines), speaker(t))], spoken(t))
}

/// The entries of a script, in order.
pub open spec fn script_entries(lines: Seq<Seq<char>>) -> Seq<(Seq<char>, Seq<char>)> {
    body_lines(lines).map_values(|t: Seq<char>| entry(lines, t))
}

/// Index of the first line at or after `from` whose trimmed text is the one
/// character `c`, or `lines.len()`.
fn find_line_of(lines: &Vec<String>, from: usize, c: char) -> (r: usize)
    requires
        from <= lines.len(),
    ensures
        r == find_line(views(lines@), from as int, seq![c]),
        from <= r <= lines.len(),
{
    let ghost l = views(lines@);
    let mut k = from;
    while k < lines.len()
        invariant
            from <= k <= lines.len(),
            l == views(lines@),
            find_line(l, from as int, seq![c]) == find_line(l, k as int, seq![c]),
        decreases lines.len() - k,
    {
        let t = trim_str(lines[k].as_str());
        if is_only(t.as_str(), c) {
            return k;
        }
        k = k + 1;
    }
    k
}

/// Reads the header of a script: the short names, the full names in the same
/// order, and the index of the first line after the header.
///
/// The header starts after the first line that reads `{` and ends at the
/// next line that reads `}` or at the end of the text.
pub fn read_head(lines: &Vec<String>) -> (r: (Vec<String>, Vec<String>, usize))
    requires
        head_valid(views(lines@)),
    ensures
        views(r.0@) == short_names(views(lines@)),
        views(r.1@) == full_names(views(lines@)),
        r.2 == body_start(views(lines@)),
{
    let ghost l = views(lines@);
    let mut names_cache: Vec<String> = Vec::with_capacity(5);
    names_cache.push(String::from_str("Я"));
    names_cache.push(String::new());
    let mut short: Vec<String> = Vec::with_capacity(5);
    short.push(String::from_str("{}"));
    short.push(String::from_str("_"));

    let open = find_line_of(lines, 0, '{');
    let start = if open < lines.len() {
        open + 1
    } else {
        lines.len()
    };
    assert(start == head_start(l));
    let end = find_line_of(lines, start, '}');
    assert(end == head_end(l));
    let ghost hl = head_lines(l);
    assert(hl.len() == end - start);
    let mut k = start;
    assert(views(short@) =~= seq!["{}"@, "_"@] + hl.take(0).map_values(
        |t: Seq<char>| short_name(t),
    ));
    assert(views(names_cache@) =~= seq!["Я"@, Seq::<char>::empty()] + hl.take(0).map_values(
        |t: Seq<char>| full_name(t),
    ));
    while k < end
        invariant
            start <= k <= end <= lines.len(),
            l == views(lines@),
            start == head_start(l),
            end == head_end(l),
            hl == head_lines(l),
            hl.len() == end - start,
            head_valid(l),
            views(short@) == seq!["{}"@, "_"@] + hl.take(k - start).map_values(
                |t: Seq<char>| short_name(t),
            ),
            views(names_cache@) == seq!["Я"@, Seq::<char>::empty()] + hl.take(
                k - start,
            ).map_values(|t: Seq<char>| full_name(t)),
        decreases end - k,
    {
        let t = trim_str(lines[k].as_str());
        assert(t@ == hl[k - start]);
        assert(splits_in_two(hl[k - start], '='));
        let left = before_char(t.as_str(), '=');
        let s = trim_str(left.as_str());
        let right = after_char(t.as_str(), '=');
        let n1 = before_char(right.as_str(), '.');
        let n2 = before_char(n1.as_str(), '(');
        let f = trim_str(n2.as_str());
        let ghost old_short = short@;
        let ghost old_names = names_cache@;
        let ghost sv = s@;
        let ghost fv = f@;
        short.push(s);
        names_cache.push(f);
        proof {
            let i = k - start;
            assert(sv == short_name(hl[i]));
            assert(fv == full_name(hl[i]));
            assert(views(short@) =~= views(old_short).push(sv));
            assert(views(names_cache@) =~= views(old_names).push(fv));
            assert(hl.take(i + 1) =~= hl.take(i).push(hl[i]));
            assert(hl.take(i + 1).map_values(|t: Seq<char>| short_name(t)) =~= hl.take(
                i,
            ).map_values(|t: Seq<char>| short_name(t)).push(short_name(hl[i])));
            assert(hl.take(i + 1).map_values(|t: Seq<char>| full_name(t)) =~= hl.take(
                i,
            ).map_values(|t: Seq<char>| full_name(t)).push(full_name(hl[i])));
            assert(views(short@) =~= seq!["{}"@, "_"@] + hl.take(i + 1).map_values(
                |t: Seq<char>| short_name(t),
            ));
            assert(views(names_cache@) =~= seq!["Я"@, Seq::<char>::empty()] + hl.take(
                i + 1,
            ).map_values(|t: Seq<char>| full_name(t)));
        }
        k = k + 1;
    }
    assert(hl.take(end - start) =~= hl);
    let next = if end < lines.len() {
        end + 1
    } else {
        lines.len()
    };
    (short, names_cache, next)
}


/// Lines that the player says (`{} - ...`) are spoken by «Я», and lines that
/// the player thinks (`_ - ...`) have no name, whatever the header declares.
pub proof fn lemma_player_lines(lines: Seq<Seq<char>>, t: Seq<char>)
    ensures
        speaker(t) == "{}"@ ==> entry(lines, t).0 == "Я"@,
        speaker(t) == "_"@ ==> entry(lines, t).0 == Seq::<char>::empty(),
{
    let names = short_names(lines);
    assert(names[0] == "{}"@);
    assert(names[1] == "_"@);
    if speaker(t) == "_"@ {
        assert("{}"@ != "_"@) by {
            reveal_strlit("{}");
            reveal_strlit("_");
            assert("{}"@.len() != "_"@.len());
        }
        assert(names.len() >= 2);
        assert(names.drop_first()[0] == "_"@);
        assert(index_in(names.drop_first(), speaker(t)) == 0);
        assert(names[0] != speaker(t));
        assert(index_in(names, speaker(t)) == 1);
    }
}

proof fn lemma_index_in_bound(names: Seq<Seq<char>>, x: Seq<char>)
    ensures
        0 <= index_in(names, x) <= names.len(),
    decreases names.len(),
{
    if names.len() > 0 && names[0] != x {
        lemma_index_in_bound(names.drop_first(), x);
    }
}

/// Index of the first of `short_names` that equals `short_name`, or
/// `short_names.len()` when none does.
fn position_of(short_name: &str, short_names: &Vec<String>) -> (r: usize)
    ensures
        r == index_in(views(short_names@), short_name@),
{
    let ghost names = views(short_names@);
    let target = String::from_str(short_name);
    let mut c: usize = 0;
    assert(names.skip(0) =~= names);
    while c < short_names.len()
        invariant
            c <= short_names.len(),
            target@ == short_name@,
            names == views(short_names@),
            index_in(names, short_name@) == c + index_in(names.skip(c as int), short_name@),
        decreases short_names.len() - c,
    {
        assert(names.len() == short_names@.len());
        assert(names.skip(c as int).len() > 0);
        assert(names.skip(c as int)[0] == short_names@[c as int]@);
        if short_names[c] == target {
            return c;
        }
        assert(names.skip(c as int).drop_first() =~= names.skip(c + 1));
        c = c + 1;
    }
    assert(names.skip(c as int).len() == 0);
    c
}

/// Index of the first of `short_names` that equals `short_name`.
pub fn search_short_name(short_name: &str, short_names: &Vec<String>) -> (r: usize)
    requires
        index_in(views(short_names@), short_name@) < short_names@.len(),
    ensures
        r == index_in(views(short_names@), short_name@),
{
    position_of(short_name, short_names)
}

/// A script with the player's name filled in: for each step, the name of the
/// speaker and the line.
pub struct DialogueFormatted<'a> {
    names: Vec<&'a str>,
    dialogues: Vec<String>,
}

impl<'a> DialogueFormatted<'a> {
    /// The names of the speakers, step by step.
    pub closed spec fn names_view(&self) -> Seq<Seq<char>> {
        self.names@.map_values(|n: &str| n@)
    }

    /// The lines, step by step.
    pub closed spec fn lines_view(&self) -> Seq<Seq<char>> {
        views(self.dialogues@)
    }

    /// A script with no steps.
    pub fn empty() -> (r: DialogueFormatted<'a>)
        ensures
            r.names_view() == Seq::<Seq<char>>::empty(),
            r.lines_view() == Seq::<Seq<char>>::empty(),
    {
        let r = DialogueFormatted { names: Vec::new(), dialogues: Vec::new() };
        assert(r.names_view() =~= Seq::<Seq<char>>::empty());
        assert(r.lines_view() =~= Seq::<Seq<char>>::empty());
        r
    }

    /// A script of the given names and lines.
    pub fn new(names: Vec<&'a str>, dialogues: Vec<String>) -> (r: DialogueFormatted<'a>)
        ensures
            r.names_view() == names@.map_values(|n: &str| n@),
            r.lines_view() == views(dialogues@),
    {
        DialogueFormatted { names, dialogues }
    }

    /// The number of steps (of names).
    pub fn len(&self) -> (r: usize)
        ensures
            r == self.names_view().len(),
    {
        self.names.len()
    }

    /// The name of the speaker at `step`.
    pub fn get_name(&self, step: usize) -> (r: &str)
        requires
            step < self.names_view().len(),
        ensures
            r@ == self.names_view()[step as int],
    {
        self.names[step]
    }

    /// The line at `step`.
    pub fn get_line(&self, step: usize) -> (r: &str)
        requires
            step < self.lines_view().len(),
        ensures
            r@ == self.lines_view()[step as int],
    {
        self.dialogues[step].as_str()
    }
}

/// A script as read: for each step, which character speaks and what is said.
pub struct Dialogue {
    names_cache: Vec<String>,
    dialogues: Vec<String>,
    names: Vec<usize>,
}

impl Dialogue {
    #[verifier::type_invariant]
    spec fn well_formed(self) -> bool {
        &&& self.names.len() == self.dialogues.len()
        &&& forall|i: int| 0 <= i < self.names.len() ==> #[trigger] self.names[i] < self.names_cache.len()
    }

    /// The steps of the script: the full name of the speaker and the line.
    pub closed spec fn view(&self) -> Seq<(Seq<char>, Seq<char>)> {
        Seq::new(
            self.names.len() as nat,
            |i: int| (self.names_cache[self.names[i] as int]@, self.dialogues[i]@),
        )
    }

    /// Reads a script from its lines (see the module's documentation).
    pub fn new(lines: &Vec<String>) -> (r: Dialogue)
        requires
            script_valid(views(lines@)),
        ensures
            r.view() == script_entries(views(lines@)),
    {
        let ghost l = views(lines@);
        let (shorts, names_cache, start) = read_head(lines);
        let mut dialogues: Vec<String> = Vec::with_capacity(10);
        let mut names: Vec<usize> = Vec::with_capacity(10);
        let ghost body = body_lines(l);
        let ghost mut done: Seq<Seq<char>> = Seq::empty();
        let mut k = start;
        assert(body == done + script(l, k as int));
        while k < lines.len()
            invariant
                start <= k <= lines.len(),
                l == views(lines@),
                script_valid(l),
                start == body_start(l),
                body == body_lines(l),
                views(shorts@) == short_names(l),
                views(names_cache@) == full_names(l),
                body == done + script(l, k as int),
                names.len() == done.len(),
                dialogues.len() == done.len(),
                forall|i: int|
                    0 <= i < done.len() ==> #[trigger] names[i] == index_in(
                        short_names(l),
                        speaker(done[i]),
                    ) && names[i] < names_cache.len(),
                forall|i: int| 0 <= i < done.len() ==> #[trigger] dialogues[i]@ == spoken(done[i]),
            decreases lines.len() - k,
        {
            let t = trim_str(lines[k].as_str());
            if t.as_str().is_empty() {
                assert(script(l, k as int) == script(l, k + 1));
            } else {
                assert(script(l, k as int) == seq![t@] + script(l, k + 1));
                assert(body[done.len() as int] == t@) by {
                    assert((done + script(l, k as int))[done.len() as int] == t@);
                }
                assert(body_line_valid(l, body[done.len() as int]));
                let left = before_char(t.as_str(), '-');
                let short = trim_str(left.as_str());
                let right = after_char(t.as_str(), '-');
                let line = trim_str(right.as_str());
                let index = search_short_name(short.as_str(), &shorts);
                assert(index == index_in(short_names(l), speaker(t@)));
                assert(index < names_cache.len()) by {
                    assert(views(names_cache@).len() == names_cache.len());
                    assert(views(shorts@).len() == shorts.len());
                }
                let ghost old_names = names@;
                let ghost old_dialogues = dialogues@;
                names.push(index);
                dialogues.push(line);
                proof {
                    assert forall|i: int| 0 <= i < done.len() implies #[trigger] names[i]
                        == old_names[i] && dialogues[i] == old_dialogues[i] by {}
                    assert(done.push(t@)[done.len() as int] == t@);
                    assert(done.push(t@) + script(l, k + 1) =~= done + script(l, k as int));
                    done = done.push(t@);
                }
            }
            k = k + 1;
        }
        assert(done =~= body) by {
            assert(script(l, k as int) == Seq::<Seq<char>>::empty());
        }
        let r = Dialogue { names_cache, dialogues, names };
        assert(r.view() =~= script_entries(l));
        r
    }

    /// The number of steps.
    pub fn len(&self) -> (r: usize)
        ensures
            r == self.view().len(),
    {
        proof {
            use_type_invariant(self);
        }
        self.dialogues.len()
    }

    /// The full name of the speaker at `step`.
    pub fn get_name(&self, step: usize) -> (r: &str)
        requires
            step < self.view().len(),
        ensures
            r@ == self.view()[step as int].0,
    {
        proof {
            use_type_invariant(self);
        }
        self.names_cache[self.names[step]].as_str()
    }

    /// The line at `step`.
    pub fn get_line(&self, step: usize) -> (r: &str)
        requires
            step < self.view().len(),
        ensures
            r@ == self.view()[step as int].1,
    {
        proof {
            use_type_invariant(self);
        }
        self.dialogues[step].as_str()
    }

    /// The script with every `{}` of its lines replaced by `user_name`.
    pub fn format<'a>(&'a self, user_name: &str) -> (r: DialogueFormatted<'a>)
        ensures
            r.names_view() == self.view().map_values(|e: (Seq<char>, Seq<char>)| e.0),
            r.lines_view() == self.view().map_values(
                |e: (Seq<char>, Seq<char>)| fill_braces(e.1, user_name@),
            ),
    {
        proof {
            use_type_invariant(self);
        }
        let len = self.names.len();
        let mut names: Vec<&'a str> = Vec::with_capacity(len);
        let mut dialogues: Vec<String> = Vec::with_capacity(len);
        for c in 0..len
            invariant
                len == self.names.len(),
                len == self.dialogues.len(),
                forall|i: int| 0 <= i < len ==> #[trigger] self.names[i] < self.names_cache.len(),
                names.len() == c,
                dialogues.len() == c,
                forall|i: int| 0 <= i < c ==> #[trigger] names[i]@ == self.view()[i].0,
                forall|i: int|
                    0 <= i < c ==> #[trigger] dialogues[i]@ == fill_braces(
                        self.view()[i].1,
                        user_name@,
                    ),
        {
            let name = self.names_cache[self.names[c]].as_str();
            names.push(name);
            let dialogue = replace_braces(self.dialogues[c].as_str(), user_name);
            dialogues.push(dialogue);
        }
        let r = DialogueFormatted::new(names, dialogues);
        assert(r.names_view() =~= self.view().map_values(|e: (Seq<char>, Seq<char>)| e.0));
        assert(r.lines_view() =~= self.view().map_values(
            |e: (Seq<char>, Seq<char>)| fill_braces(e.1, user_name@),
        ));
        r
    }
}


/// The character that a header line of a scene declares: the text after `=`
/// names it, and a location may follow the name in brackets, as in
/// `a = Anna (Left)`; without brackets the character stands in the centre.
pub open spec fn declared_character(t: Seq<char>) -> (Seq<char>, CharacterLocation) {
    let name = after(t, '=');
    let p = find(name, '(');
    if p < name.len() {
        (trim(name.take(p)), location_named(name.subrange(p + 1, find(name, ')'))).unwrap())
    } else {
        (trim(name), CharacterLocation::Center)
    }
}

/// A header line of a scene can be read: it holds one `=`, and brackets after
/// the name, if any, are closed and hold a known location.
pub open spec fn character_line_valid(t: Seq<char>) -> bool {
    &&& splits_in_two(t, '=')
    &&& {
        let name = after(t, '=');
        let p = find(name, '(');
        p < name.len() ==> {
            &&& p < find(name, ')') < name.len()
            &&& location_named(name.subrange(p + 1, find(name, ')'))) is Some
        }
    }
}

/// The header of a scene can be read: it is closed by a line `}` and each of
/// its lines can be read.
pub open spec fn characters_valid(lines: Seq<Seq<char>>) -> bool {
    &&& head_end(lines) < lines.len()
    &&& forall|i: int|
        0 <= i < head_lines(lines).len() ==> character_line_valid(#[trigger] head_lines(lines)[i])
}

/// Reads the characters that the header of a scene declares, with their
/// locations, in order, and gives the index of the first line after the
/// header, where reading goes on.
pub fn read_characters(lines: &Vec<String>) -> (r: (Vec<(String, CharacterLocation)>, usize))
    requires
        characters_valid(views(lines@)),
    ensures
        r.0@.len() == head_lines(views(lines@)).len(),
        forall|i: int|
            0 <= i < r.0@.len() ==> (#[trigger] r.0@[i]).0@ == declared_character(
                head_lines(views(lines@))[i],
            ).0 && r.0@[i].1 == declared_character(head_lines(views(lines@))[i]).1,
        r.1 == body_start(views(lines@)),
        r.1 == head_end(views(lines@)) + 1,
{
    let ghost l = views(lines@);
    let mut names: Vec<(String, CharacterLocation)> = Vec::with_capacity(5);
    let open = find_line_of(lines, 0, '{');
    let start = if open < lines.len() {
        open + 1
    } else {
        lines.len()
    };
    let end = find_line_of(lines, start, '}');
    let ghost hl = head_lines(l);
    let mut k = start;
    while k < end
        invariant
            start <= k <= end <= lines.len(),
            l == views(lines@),
            start == head_start(l),
            end == head_end(l),
            hl == head_lines(l),
            hl.len() == end - start,
            characters_valid(l),
            names@.len() == k - start,
            forall|i: int|
                0 <= i < names@.len() ==> (#[trigger] names@[i]).0@ == declared_character(
                    hl[i],
                ).0 && names@[i].1 == declared_character(hl[i]).1,
        decreases end - k,
    {
        let t = trim_str(lines[k].as_str());
        assert(t@ == hl[k - start]);
        assert(character_line_valid(hl[k - start]));
        let name = after_char(t.as_str(), '=');
        let v = crate::text::chars_of(name.as_str());
        let p = crate::text::find_char(&v, '(');
        proof {
            lemma_find_bounds(name@, '(');
            lemma_find_bounds(name@, ')');
        }
        let entry = if p < v.len() {
            let q = crate::text::find_char(&v, ')');
            let inside = name.as_str().substring_char(p + 1, q);
            let location = CharacterLocation::from_name(inside);
            let head = name.as_str().substring_char(0, p);
            (trim_str(head), location.unwrap())
        } else {
            (trim_str(name.as_str()), CharacterLocation::Center)
        };
        let ghost old_names = names@;
        names.push(entry);
        assert forall|i: int| 0 <= i < old_names.len() implies #[trigger] names@[i] == old_names[i] by {}
        k = k + 1;
    }
    (names, end + 1)
}


/// Whether every header line of `lines` holds exactly one `=`.
fn check_head(lines: &Vec<String>) -> (r: bool)
    ensures
        r == head_valid(views(lines@)),
{
    let ghost l = views(lines@);
    let open = find_line_of(lines, 0, '{');
    let start = if open < lines.len() {
        open + 1
    } else {
        lines.len()
    };
    let end = find_line_of(lines, start, '}');
    let ghost hl = head_lines(l);
    assert(start == head_start(l) && end == head_end(l));
    let mut k = start;
    while k < end
        invariant
            start <= k <= end <= lines.len(),
            l == views(lines@),
            start == head_start(l),
            end == head_end(l),
            hl == head_lines(l),
            hl.len() == end - start,
            forall|i: int| 0 <= i < k - start ==> splits_in_two(#[trigger] hl[i], '='),
        decreases end - k,
    {
        let t = trim_str(lines[k].as_str());
        assert(t@ == hl[k - start]);
        if !splits_once(t.as_str(), '=') {
            return false;
        }
        k = k + 1;
    }
    true
}

/// Whether `lines` can be read as a script (see `script_valid`).
pub fn check_script(lines: &Vec<String>) -> (r: bool)
    ensures
        r == script_valid(views(lines@)),
{
    let ghost l = views(lines@);
    if !check_head(lines) {
        return false;
    }
    let (shorts, _names_cache, start) = read_head(lines);
    let ghost body = body_lines(l);
    let ghost mut done: Seq<Seq<char>> = Seq::empty();
    let mut k = start;
    assert(body == done + script(l, k as int));
    while k < lines.len()
        invariant
            start <= k <= lines.len(),
            l == views(lines@),
            head_valid(l),
            start == body_start(l),
            body == body_lines(l),
            views(shorts@) == short_names(l),
            body == done + script(l, k as int),
            forall|i: int| 0 <= i < done.len() ==> body_line_valid(l, #[trigger] done[i]),
        decreases lines.len() - k,
    {
        let t = trim_str(lines[k].as_str());
        if t.as_str().is_empty() {
            assert(script(l, k as int) == script(l, k + 1));
        } else {
            assert(script(l, k as int) == seq![t@] + script(l, k + 1));
            assert(body[done.len() as int] == t@) by {
                assert((done + script(l, k as int))[done.len() as int] == t@);
            }
            if !has_char(t.as_str(), '-') {
                assert(!body_line_valid(l, body[done.len() as int]));
                return false;
            }
            let left = before_char(t.as_str(), '-');
            let short = trim_str(left.as_str());
            proof {
                lemma_index_in_bound(views(shorts@), short@);
            }
            if position_of(short.as_str(), &shorts) == shorts.len() {
                assert(!body_line_valid(l, body[done.len() as int]));
                return false;
            }
            assert(body_line_valid(l, t@));
            assert(forall|i: int| 0 <= i < done.len() ==> #[trigger] done.push(t@)[i] == done[i]);
            proof {
                assert(done.push(t@) + script(l, k + 1) =~= done + script(l, k as int));
                done = done.push(t@);
            }
        }
        k = k + 1;
    }
    assert(done =~= body) by {
        assert(script(l, k as int) == Seq::<Seq<char>>::empty());
    }
    true
}


/// Whether a header line of a scene can be read (see `character_line_valid`).
fn check_character_line(t: &str) -> (r: bool)
    ensures
        r == character_line_valid(t@),
{
    if !splits_once(t, '=') {
        return false;
    }
    let name = after_char(t, '=');
    let v = crate::text::chars_of(name.as_str());
    let p = crate::text::find_char(&v, '(');
    proof {
        lemma_find_bounds(name@, '(');
        lemma_find_bounds(name@, ')');
    }
    if p < v.len() {
        let q = crate::text::find_char(&v, ')');
        if !(p < q && q < v.len()) {
            return false;
        }
        let inside = name.as_str().substring_char(p + 1, q);
        CharacterLocation::from_name(inside).is_some()
    } else {
        true
    }
}

/// Whether the header of a scene can be read (see `characters_valid`).
pub fn check_characters(lines: &Vec<String>) -> (r: bool)
    ensures
        r == characters_valid(views(lines@)),
{
    let ghost l = views(lines@);
    let open = find_line_of(lines, 0, '{');
    let start = if open < lines.len() {
        open + 1
    } else {
        lines.len()
    };
    let end = find_line_of(lines, start, '}');
    let ghost hl = head_lines(l);
    assert(start == head_start(l) && end == head_end(l));
    if end == lines.len() {
        return false;
    }
    let mut k = start;
    while k < end
        invariant
            start <= k <= end < lines.len(),
            l == views(lines@),
            start == head_start(l),
            end == head_end(l),
            hl == head_lines(l),
            hl.len() == end - start,
            forall|i: int| 0 <= i < k - start ==> character_line_valid(#[trigger] hl[i]),
        decreases end - k,
    {
        let t = trim_str(lines[k].as_str());
        assert(t@ == hl[k - start]);
        if !check_character_line(t.as_str()) {
            return false;
        }
        k = k + 1;
    }
    true
}

} // verus!
