//! The six-part address of a record, `/A/B/C/D/E/F/`.
use vstd::prelude::*;
use crate::text::{chars_of, lemma_split_on_nonempty, split_chars, split_on, trim, trimmed};

verus! {

/// The mathematical content of a [`DssPathname`]: its six parts, each
/// present or absent.
pub ghost struct PathParts {
    pub apart: Option<Seq<char>>,
    pub bpart: Option<Seq<char>>,
    pub cpart: Option<Seq<char>>,
    pub dpart: Option<Seq<char>>,
    pub epart: Option<Seq<char>>,
    pub fpart: Option<Seq<char>>,
}

/// The address of a record: six parts, A to F.
#[derive(Debug)]
pub struct DssPathname {
    apart: Option<String>,
    bpart: Option<String>,
    cpart: Option<String>,
    dpart: Option<String>,
    epart: Option<String>,
    fpart: Option<String>,
}

/// The content of one part.
pub open spec fn part_view(part: Option<String>) -> Option<Seq<char>> {
    match part {
        Some(text) => Some(text@),
        None => None,
    }
}

impl View for DssPathname {
    type V = PathParts;

    closed spec fn view(&self) -> PathParts {
        PathParts {
            apart: part_view(self.apart),
            bpart: part_view(self.bpart),
            cpart: part_view(self.cpart),
            dpart: part_view(self.dpart),
            epart: part_view(self.epart),
            fpart: part_view(self.fpart),
        }
    }
}

/// The text that a part contributes to the address: nothing where it is
/// absent.
pub open spec fn part_text(part: Option<Seq<char>>) -> Seq<char> {
    match part {
        Some(text) => text,
        None => Seq::empty(),
    }
}

/// The canonical text of an address: a slash before each part and one
/// after the last.
pub open spec fn path_text(parts: PathParts) -> Seq<char> {
    seq!['/'] + part_text(parts.apart) + seq!['/'] + part_text(parts.bpart) + seq!['/']
        + part_text(parts.cpart) + seq!['/'] + part_text(parts.dpart) + seq!['/'] + part_text(
        parts.epart,
    ) + seq!['/'] + part_text(parts.fpart) + seq!['/']
}

/// The address that a text spells: the text must begin and end with a slash
/// and fall into eight pieces at its slashes, of which the first and the last
/// are empty; the six parts are the pieces between, each without the white
/// space at its ends.
pub open spec fn path_of_text(s: Seq<char>) -> Option<PathParts> {
    let pieces = split_on(s, '/');
    if s.len() > 0 && s[0] == '/' && s.last() == '/' && pieces.len() == 8 {
        Some(
            PathParts {
                apart: Some(trimmed(pieces[1])),
                bpart: Some(trimmed(pieces[2])),
                cpart: Some(trimmed(pieces[3])),
                dpart: Some(trimmed(pieces[4])),
                epart: Some(trimmed(pieces[5])),
                fpart: Some(trimmed(pieces[6])),
            },
        )
    } else {
        None
    }
}

fn copy_part(part: &Option<String>) -> (copy: Option<String>)
    ensures
        part_view(copy) == part_view(*part),
{
    match part {
        Some(text) => Some(text.clone()),
        None => None,
    }
}

fn borrow_part(part: &Option<String>) -> (text: Option<&str>)
    ensures
        match text {
            Some(t) => Some(t@),
            None => None,
        } == part_view(*part),
{
    match part {
        Some(text) => Some(text.as_str()),
        None => None,
    }
}

fn append_part(text: &mut String, part: &Option<String>)
    ensures
        final(text)@ == old(text)@ + part_text(part_view(*part)) + seq!['/'],
{
    proof {
        reveal_strlit("/");
    }
    match part {
        Some(inner) => {
            text.append(inner.as_str());
        },
        None => {
            assert(text@ + Seq::<char>::empty() =~= text@);
        },
    }
    text.append("/");
}

fn trimmed_part(piece: &String) -> (part: Option<String>)
    ensures
        part_view(part) == Some(trimmed(piece@)),
{
    Some(String::from_str(trim(piece.as_str())))
}

impl Clone for DssPathname {
    fn clone(&self) -> (copy: Self)
        ensures
            copy@ == self@,
    {
        DssPathname {
            apart: copy_part(&self.apart),
            bpart: copy_part(&self.bpart),
            cpart: copy_part(&self.cpart),
            dpart: copy_part(&self.dpart),
            epart: copy_part(&self.epart),
            fpart: copy_part(&self.fpart),
        }
    }
}

impl DssPathname {
    /// An address of the six parts given.
    pub fn new(
        a: Option<String>,
        b: Option<String>,
        c: Option<String>,
        d: Option<String>,
        e: Option<String>,
        f: Option<String>,
    ) -> (path: Self)
        ensures
            path@ == (PathParts {
                apart: part_view(a),
                bpart: part_view(b),
                cpart: part_view(c),
                dpart: part_view(d),
                epart: part_view(e),
                fpart: part_view(f),
            }),
    {
        DssPathname { apart: a, bpart: b, cpart: c, dpart: d, epart: e, fpart: f }
    }

    /// Writes the address in its canonical form, with nothing for an absent
    /// part.
    pub fn to_string(&self) -> (text: String)
        ensures
            text@ == path_text(self@),
    {
        proof {
            reveal_strlit("/");
        }
        let mut text = String::from_str("/");
        append_part(&mut text, &self.apart);
        append_part(&mut text, &self.bpart);
        append_part(&mut text, &self.cpart);
        append_part(&mut text, &self.dpart);
        append_part(&mut text, &self.epart);
        append_part(&mut text, &self.fpart);
        text
    }

    /// Reads an address from its text. `None` where the text does not begin
    /// and end with a slash, or does not hold exactly six parts between
    /// slashes. Each part is taken without the white space at its ends.
    pub fn from_string(path: &str) -> (parsed: Option<Self>)
        ensures
            match path_of_text(path@) {
                Some(parts) => parsed is Some && parsed->Some_0@ == parts,
                None => parsed is None,
            },
    {
        let chars = chars_of(path);
        let n = chars.len();
        if n == 0 {
            return None;
        }
        if chars[0] != '/' || chars[n - 1] != '/' {
            return None;
        }
        let pieces = split_chars(&chars, n, '/');
        assert(chars@.take(n as int) =~= path@);
        if pieces.len() != 8 {
            return None;
        }
        let a = trimmed_part(&pieces[1]);
        let b = trimmed_part(&pieces[2]);
        let c = trimmed_part(&pieces[3]);
        let d = trimmed_part(&pieces[4]);
        let e = trimmed_part(&pieces[5]);
        let f = trimmed_part(&pieces[6]);
        Some(DssPathname::new(a, b, c, d, e, f))
    }

    /// Part A.
    pub fn apart(&self) -> (part: Option<&str>)
        ensures
            match part {
                Some(t) => Some(t@),
                None => None,
            } == self@.apart,
    {
        borrow_part(&self.apart)
    }

    /// Part B.
    pub fn bpart(&self) -> (part: Option<&str>)
        ensures
            match part {
                Some(t) => Some(t@),
                None => None,
            } == self@.bpart,
    {
        borrow_part(&self.bpart)
    }

    /// Part C.
    pub fn cpart(&self) -> (part: Option<&str>)
        ensures
            match part {
                Some(t) => Some(t@),
                None => None,
            } == self@.cpart,
    {
        borrow_part(&self.cpart)
    }

    /// Part D.
    pub fn dpart(&self) -> (part: Option<&str>)
        ensures
            match part {
                Some(t) => Some(t@),
                None => None,
            } == self@.dpart,
    {
        borrow_part(&self.dpart)
    }

    /// Part E, which names the interval of a regular series.
    pub fn epart(&self) -> (part: Option<&str>)
        ensures
            match part {
                Some(t) => Some(t@),
                None => None,
            } == self@.epart,
    {
        borrow_part(&self.epart)
    }

    /// Part F.
    pub fn fpart(&self) -> (part: Option<&str>)
        ensures
            match part {
                Some(t) => Some(t@),
                None => None,
            } == self@.fpart,
    {
        borrow_part(&self.fpart)
    }
}

/// Whether a part holds no slash.
pub open spec fn no_slash(part: Option<Seq<char>>) -> bool {
    forall|i: int| 0 <= i < part_text(part).len() ==> #[trigger] part_text(part)[i] != '/'
}

/// What reading makes of the parts of an address: each is present, and
/// without the white space at its ends.
pub open spec fn trimmed_parts(parts: PathParts) -> PathParts {
    PathParts {
        apart: Some(trimmed(part_text(parts.apart))),
        bpart: Some(trimmed(part_text(parts.bpart))),
        cpart: Some(trimmed(part_text(parts.cpart))),
        dpart: Some(trimmed(part_text(parts.dpart))),
        epart: Some(trimmed(part_text(parts.epart))),
        fpart: Some(trimmed(part_text(parts.fpart))),
    }
}

proof fn lemma_split_append_plain(head: Seq<char>, tail: Seq<char>)
    requires
        forall|i: int| 0 <= i < tail.len() ==> #[trigger] tail[i] != '/',
    ensures
        split_on(head + tail, '/') == split_on(head, '/').update(
            split_on(head, '/').len() - 1,
            split_on(head, '/').last() + tail,
        ),
    decreases tail.len(),
{
    let before = split_on(head, '/');
    lemma_split_on_nonempty(head, '/');
    if tail.len() == 0 {
        assert(head + tail =~= head);
        assert(before.last() + tail =~= before.last());
        assert(before.update(before.len() - 1, before.last()) =~= before);
    } else {
        let init = tail.drop_last();
        assert((head + tail).drop_last() =~= head + init);
        assert((head + tail).last() == tail[tail.len() - 1]);
        lemma_split_append_plain(head, init);
        let mid = split_on(head + init, '/');
        assert(mid.last().push(tail.last()) =~= before.last() + tail);
        assert(mid.update(mid.len() - 1, mid.last().push(tail.last())) =~= before.update(
            before.len() - 1,
            before.last() + tail,
        ));
    }
}

/// A slash and a part without a slash, after a text: one more piece, the
/// part.
proof fn lemma_split_append_part(head: Seq<char>, part: Seq<char>)
    requires
        forall|i: int| 0 <= i < part.len() ==> #[trigger] part[i] != '/',
    ensures
        split_on(head + seq!['/'] + part, '/') == split_on(head, '/').push(part),
{
    let slashed = head + seq!['/'];
    assert(slashed.drop_last() =~= head);
    assert(split_on(slashed, '/') == split_on(head, '/').push(Seq::empty()));
    lemma_split_append_plain(slashed, part);
    assert(Seq::<char>::empty() + part =~= part);
    assert(split_on(slashed, '/').update(
        split_on(slashed, '/').len() - 1,
        split_on(slashed, '/').last() + part,
    ) =~= split_on(head, '/').push(part));
}

/// Writing an address and reading the text gives the same six parts, each
/// without the white space at its ends, provided that no part holds a slash.
pub proof fn lemma_path_round_trip(parts: PathParts)
    requires
        no_slash(parts.apart),
        no_slash(parts.bpart),
        no_slash(parts.cpart),
        no_slash(parts.dpart),
        no_slash(parts.epart),
        no_slash(parts.fpart),
    ensures
        path_of_text(path_text(parts)) == Some(trimmed_parts(parts)),
{
    let a = part_text(parts.apart);
    let b = part_text(parts.bpart);
    let c = part_text(parts.cpart);
    let d = part_text(parts.dpart);
    let e = part_text(parts.epart);
    let f = part_text(parts.fpart);
    let slash = seq!['/'];
    let none = Seq::<char>::empty();
    let t1 = none + slash + a;
    let t2 = t1 + slash + b;
    let t3 = t2 + slash + c;
    let t4 = t3 + slash + d;
    let t5 = t4 + slash + e;
    let t6 = t5 + slash + f;
    let t7 = t6 + slash + none;
    let text = path_text(parts);
    assert(none + slash =~= slash);
    assert(t7 =~= t6 + slash);
    assert(text == t7);
    assert(split_on(none, '/') == seq![none]);
    lemma_split_append_part(none, a);
    lemma_split_append_part(t1, b);
    lemma_split_append_part(t2, c);
    lemma_split_append_part(t3, d);
    lemma_split_append_part(t4, e);
    lemma_split_append_part(t5, f);
    lemma_split_append_part(t6, none);
    assert(split_on(text, '/') =~= seq![none, a, b, c, d, e, f, none]);
    assert(text[0] == '/');
    assert(text.last() == '/');
}

} // verus!
