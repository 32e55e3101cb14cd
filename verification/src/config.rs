use vstd::prelude::*;

verus! {

/// The five defaults the journal persists, each stored as text exactly as the
/// configuration file shows it (latitude and longitude included).
#[derive(Clone, Debug, PartialEq)]
pub struct Config {
    pub location_full_name: String,
    pub location_latitude: String,
    pub location_longitude: String,
    pub timezone: String,
    pub editor: String,
}

/// A sequence of characters free of double quotes.  The configuration format
/// delimits every value with double quotes, so only such values round-trip.
pub open spec fn no_quote(s: Seq<char>) -> bool {
    forall|i: int| 0 <= i < s.len() ==> s[i] != '"'
}

/// A configuration whose five values the file format can carry faithfully.
pub open spec fn spec_config_wf(c: Config) -> bool {
    no_quote(c.location_full_name@) && no_quote(c.location_latitude@) && no_quote(
        c.location_longitude@,
    ) && no_quote(c.timezone@) && no_quote(c.editor@)
}

pub open spec fn seg0() -> Seq<char> {
    "[defaults]\nlocation_full_name=\""@
}

pub open spec fn seg1() -> Seq<char> {
    "\"\nlocation_latitude=\""@
}

pub open spec fn seg2() -> Seq<char> {
    "\"\nlocation_longitude=\""@
}

pub open spec fn seg3() -> Seq<char> {
    "\"\ntimezone=\""@
}

pub open spec fn seg4() -> Seq<char> {
    "\"\neditor=\""@
}

pub open spec fn seg5() -> Seq<char> {
    "\"\n"@
}

/// The exact text of a configuration file holding the five given values.
pub open spec fn spec_render_config(
    n: Seq<char>,
    la: Seq<char>,
    lo: Seq<char>,
    tz: Seq<char>,
    ed: Seq<char>,
) -> Seq<char> {
    seg0() + n + seg1() + la + seg2() + lo + seg3() + tz + seg4() + ed + seg5()
}

/// Renders a configuration as the key-value text block that is shown to the
/// user during initialisation and then written to the configuration file.
pub fn render_config(c: &Config) -> (r: String)
    ensures
        r@ == spec_render_config(
            c.location_full_name@,
            c.location_latitude@,
            c.location_longitude@,
            c.timezone@,
            c.editor@,
        ),
{
    let mut s = String::from_str("[defaults]\nlocation_full_name=\"");
    s.append(c.location_full_name.as_str());
    s.append("\"\nlocation_latitude=\"");
    s.append(c.location_latitude.as_str());
    s.append("\"\nlocation_longitude=\"");
    s.append(c.location_longitude.as_str());
    s.append("\"\ntimezone=\"");
    s.append(c.timezone.as_str());
    s.append("\"\neditor=\"");
    s.append(c.editor.as_str());
    s.append("\"\n");
    proof {
        assert(s@ =~= spec_render_config(
            c.location_full_name@,
            c.location_latitude@,
            c.location_longitude@,
            c.timezone@,
            c.editor@,
        ));
    }
    s
}

/// At position `pos` of `t` stands the quote-free value `v`, followed
/// immediately by the delimiter `lit`, which starts with the closing quote.
pub open spec fn field_at(t: Seq<char>, pos: int, v: Seq<char>, lit: Seq<char>) -> bool {
    &&& 0 <= pos
    &&& no_quote(v)
    &&& lit.len() > 0
    &&& lit[0] == '"'
    &&& pos + v.len() + lit.len() <= t.len()
    &&& t.subrange(pos, pos + v.len()) == v
    &&& t.subrange(pos + v.len(), pos + v.len() + lit.len()) == lit
}

/// Because the value may not contain the delimiter's opening quote, only one
/// value can stand at a given position.
proof fn lemma_field_at_unique(t: Seq<char>, pos: int, v1: Seq<char>, v2: Seq<char>, lit: Seq<char>)
    requires
        field_at(t, pos, v1, lit),
        field_at(t, pos, v2, lit),
    ensures
        v1 == v2,
{
    if v1.len() < v2.len() {
        assert(t[pos + v1.len()] == lit[0]);
        assert(t[pos + v1.len()] == v2[v1.len() as int]);
        assert(false);
    }
    if v2.len() < v1.len() {
        assert(t[pos + v2.len()] == lit[0]);
        assert(t[pos + v2.len()] == v1[v2.len() as int]);
        assert(false);
    }
    assert(v1 =~= v2);
}

/// How a rendered configuration decomposes: the fixed head, then each value
/// with its delimiter, with nothing after the final newline.
proof fn lemma_render_structure(
    n: Seq<char>,
    la: Seq<char>,
    lo: Seq<char>,
    tz: Seq<char>,
    ed: Seq<char>,
)
    requires
        no_quote(n),
        no_quote(la),
        no_quote(lo),
        no_quote(tz),
        no_quote(ed),
    ensures
        ({
            let t = spec_render_config(n, la, lo, tz, ed);
            let l0 = seg0().len() as int;
            let f1 = l0 + n.len() + seg1().len();
            let f2 = f1 + la.len() + seg2().len();
            let f3 = f2 + lo.len() + seg3().len();
            let f4 = f3 + tz.len() + seg4().len();
            &&& l0 <= t.len()
            &&& t.subrange(0, l0) == seg0()
            &&& field_at(t, l0, n, seg1())
            &&& field_at(t, f1, la, seg2())
            &&& field_at(t, f2, lo, seg3())
            &&& field_at(t, f3, tz, seg4())
            &&& field_at(t, f4, ed, seg5())
            &&& t.len() == f4 + ed.len() + seg5().len()
        }),
{
    reveal_strlit("[defaults]\nlocation_full_name=\"");
    reveal_strlit("\"\nlocation_latitude=\"");
    reveal_strlit("\"\nlocation_longitude=\"");
    reveal_strlit("\"\ntimezone=\"");
    reveal_strlit("\"\neditor=\"");
    reveal_strlit("\"\n");
    let t = spec_render_config(n, la, lo, tz, ed);
    let l0 = seg0().len() as int;
    let f1 = l0 + n.len() + seg1().len();
    let f2 = f1 + la.len() + seg2().len();
    let f3 = f2 + lo.len() + seg3().len();
    let f4 = f3 + tz.len() + seg4().len();
    assert(t.subrange(0, l0) =~= seg0());
    assert(t.subrange(l0, l0 + n.len()) =~= n);
    assert(t.subrange(l0 + n.len(), f1) =~= seg1());
    assert(t.subrange(f1, f1 + la.len()) =~= la);
    assert(t.subrange(f1 + la.len(), f2) =~= seg2());
    assert(t.subrange(f2, f2 + lo.len()) =~= lo);
    assert(t.subrange(f2 + lo.len(), f3) =~= seg3());
    assert(t.subrange(f3, f3 + tz.len()) =~= tz);
    assert(t.subrange(f3 + tz.len(), f4) =~= seg4());
    assert(t.subrange(f4, f4 + ed.len()) =~= ed);
    assert(t.subrange(f4 + ed.len(), f4 + ed.len() + seg5().len()) =~= seg5());
}

/// The converse direction: a text that decomposes into the five fields is
/// exactly the rendering of those fields.
proof fn lemma_fields_to_render(
    t: Seq<char>,
    n: Seq<char>,
    la: Seq<char>,
    lo: Seq<char>,
    tz: Seq<char>,
    ed: Seq<char>,
)
    requires
        ({
            let l0 = seg0().len() as int;
            let f1 = l0 + n.len() + seg1().len();
            let f2 = f1 + la.len() + seg2().len();
            let f3 = f2 + lo.len() + seg3().len();
            let f4 = f3 + tz.len() + seg4().len();
            &&& l0 <= t.len()
            &&& t.subrange(0, l0) == seg0()
            &&& field_at(t, l0, n, seg1())
            &&& field_at(t, f1, la, seg2())
            &&& field_at(t, f2, lo, seg3())
            &&& field_at(t, f3, tz, seg4())
            &&& field_at(t, f4, ed, seg5())
            &&& t.len() == f4 + ed.len() + seg5().len()
        }),
    ensures
        t == spec_render_config(n, la, lo, tz, ed),
{
    assert(t =~= spec_render_config(n, la, lo, tz, ed));
}

/// True when `lit` occurs in `text` starting at position `i`.
fn str_eq_at(text: &str, i: usize, lit: &str) -> (b: bool)
    requires
        i <= text@.len(),
    ensures
        b == (i + lit@.len() <= text@.len() && text@.subrange(i as int, i + lit@.len()) == lit@),
{
    let n = text.unicode_len();
    let m = lit.unicode_len();
    if n - i < m {
        proof {
            assert(!(i + lit@.len() <= text@.len()));
        }
        return false;
    }
    let mut j: usize = 0;
    while j < m
        invariant
            0 <= j <= m,
            m == lit@.len(),
            n == text@.len(),
            i + m <= n,
            forall|k: int| 0 <= k < j ==> text@[i + k] == lit@[k],
        decreases m - j,
    {
        if text.get_char(i + j) != lit.get_char(j) {
            proof {
                if text@.subrange(i as int, i + lit@.len()) == lit@ {
                    assert(text@.subrange(i as int, i + lit@.len())[j as int] == text@[i + j]);
                    assert(false);
                }
            }
            return false;
        }
        j += 1;
    }
    proof {
        assert(text@.subrange(i as int, i + lit@.len()) =~= lit@);
    }
    true
}

/// The position of the first double quote at or after `from`, if any.
fn find_quote(text: &str, from: usize) -> (r: Option<usize>)
    requires
        from <= text@.len(),
    ensures
        r matches Some(j) ==> from <= j < text@.len() && text@[j as int] == '"' && (forall|k: int|
            from <= k < j ==> text@[k] != '"'),
        r is None ==> forall|k: int| from <= k < text@.len() ==> text@[k] != '"',
{
    let n = text.unicode_len();
    let mut j = from;
    while j < n
        invariant
            from <= j <= n,
            n == text@.len(),
            forall|k: int| from <= k < j ==> text@[k] != '"',
        decreases n - j,
    {
        if text.get_char(j) == '"' {
            return Some(j);
        }
        j += 1;
    }
    None
}

/// Scans the quote-free value that stands at `pos` and checks that the
/// delimiter `lit` follows it; returns the value and the position after the
/// delimiter.  `None` means no value-plus-delimiter stands at `pos` at all.
fn read_value(text: &str, pos: usize, lit: &str) -> (r: Option<(String, usize)>)
    requires
        pos <= text@.len(),
        lit@.len() > 0,
        lit@[0] == '"',
    ensures
        r matches Some(p) ==> field_at(text@, pos as int, p.0@, lit@) && p.1 == pos + p.0@.len()
            + lit@.len(),
        r is None ==> forall|v: Seq<char>| !field_at(text@, pos as int, v, lit@),
{
    let n = text.unicode_len();
    let j = match find_quote(text, pos) {
        Some(j) => j,
        None => {
            proof {
                assert forall|v: Seq<char>| !field_at(text@, pos as int, v, lit@) by {
                    if field_at(text@, pos as int, v, lit@) {
                        assert(text@[pos + v.len()] == text@.subrange(
                            pos + v.len(),
                            pos + v.len() + lit@.len(),
                        )[0]);
                        assert(text@[pos + v.len()] == '"');
                    }
                }
            }
            return None;
        },
    };
    let value = text.substring_char(pos, j).to_owned();
    if !str_eq_at(text, j, lit) {
        proof {
            assert forall|v: Seq<char>| !field_at(text@, pos as int, v, lit@) by {
                if field_at(text@, pos as int, v, lit@) {
                    let q = pos + v.len();
                    assert(text@[q] == text@.subrange(q, q + lit@.len())[0]);
                    assert(text@[q] == '"');
                    if q < j {
                        assert(text@[q] != '"');
                    }
                    if j < q {
                        assert(text@[j as int] == v[j - pos]);
                    }
                    assert(q == j);
                }
            }
        }
        return None;
    }
    proof {
        assert(value@ =~= text@.subrange(pos as int, pos + value@.len()));
        assert forall|k: int| 0 <= k < value@.len() implies value@[k] != '"' by {
            assert(value@[k] == text@[pos + k]);
        }
        assert(field_at(text@, pos as int, value@, lit@));
    }
    Some((value, j + lit.unicode_len()))
}

/// Reads a configuration file's text back into the five values.
///
/// The contract states the round trip both ways: a parsed result renders to
/// exactly the given text, and any quote-free values whose rendering equals
/// the text are recovered unchanged.
#[verifier::rlimit(60)]
pub fn parse_config(text: &str) -> (r: Option<Config>)
    ensures
        r matches Some(c) ==> spec_config_wf(c) && text@ == spec_render_config(
            c.location_full_name@,
            c.location_latitude@,
            c.location_longitude@,
            c.timezone@,
            c.editor@,
        ),
        forall|n: Seq<char>, la: Seq<char>, lo: Seq<char>, tz: Seq<char>, ed: Seq<char>|
            no_quote(n) && no_quote(la) && no_quote(lo) && no_quote(tz) && no_quote(ed) && text@
                == #[trigger] spec_render_config(n, la, lo, tz, ed) ==> (r matches Some(c)
                && c.location_full_name@ == n && c.location_latitude@ == la
                && c.location_longitude@ == lo && c.timezone@ == tz && c.editor@ == ed),
{
    proof {
        reveal_strlit("\"\nlocation_latitude=\"");
        reveal_strlit("\"\nlocation_longitude=\"");
        reveal_strlit("\"\ntimezone=\"");
        reveal_strlit("\"\neditor=\"");
        reveal_strlit("\"\n");
    }
    let n_total = text.unicode_len();
    if !str_eq_at(text, 0, "[defaults]\nlocation_full_name=\"") {
        proof {
            assert forall|n: Seq<char>, la: Seq<char>, lo: Seq<char>, tz: Seq<char>, ed: Seq<char>|
                no_quote(n) && no_quote(la) && no_quote(lo) && no_quote(tz) && no_quote(ed)
                    && text@ == #[trigger] spec_render_config(n, la, lo, tz, ed) implies false by {
                lemma_render_structure(n, la, lo, tz, ed);
            }
        }
        return None;
    }
    let p0 = "[defaults]\nlocation_full_name=\"".unicode_len();
    let (name, pos1) = match read_value(text, p0, "\"\nlocation_latitude=\"") {
        Some(p) => p,
        None => {
            proof {
                assert forall|
                    n: Seq<char>,
                    la: Seq<char>,
                    lo: Seq<char>,
                    tz: Seq<char>,
                    ed: Seq<char>,
                |
                    no_quote(n) && no_quote(la) && no_quote(lo) && no_quote(tz) && no_quote(ed)
                        && text@ == #[trigger] spec_render_config(
                        n,
                        la,
                        lo,
                        tz,
                        ed,
                    ) implies false by {
                    lemma_render_structure(n, la, lo, tz, ed);
                }
            }
            return None;
        },
    };
    let (latitude, pos2) = match read_value(text, pos1, "\"\nlocation_longitude=\"") {
        Some(p) => p,
        None => {
            proof {
                assert forall|
                    n: Seq<char>,
                    la: Seq<char>,
                    lo: Seq<char>,
                    tz: Seq<char>,
                    ed: Seq<char>,
                |
                    no_quote(n) && no_quote(la) && no_quote(lo) && no_quote(tz) && no_quote(ed)
                        && text@ == #[trigger] spec_render_config(
                        n,
                        la,
                        lo,
                        tz,
                        ed,
                    ) implies false by {
                    lemma_render_structure(n, la, lo, tz, ed);
                    lemma_field_at_unique(text@, p0 as int, name@, n, seg1());
                }
            }
            return None;
        },
    };
    let (longitude, pos3) = match read_value(text, pos2, "\"\ntimezone=\"") {
        Some(p) => p,
        None => {
            proof {
                assert forall|
                    n: Seq<char>,
                    la: Seq<char>,
                    lo: Seq<char>,
                    tz: Seq<char>,
                    ed: Seq<char>,
                |
                    no_quote(n) && no_quote(la) && no_quote(lo) && no_quote(tz) && no_quote(ed)
                        && text@ == #[trigger] spec_render_config(
                        n,
                        la,
                        lo,
                        tz,
                        ed,
                    ) implies false by {
                    lemma_render_structure(n, la, lo, tz, ed);
                    lemma_field_at_unique(text@, p0 as int, name@, n, seg1());
                    lemma_field_at_unique(text@, pos1 as int, latitude@, la, seg2());
                }
            }
            return None;
        },
    };
    let (timezone, pos4) = match read_value(text, pos3, "\"\neditor=\"") {
        Some(p) => p,
        None => {
            proof {
                assert forall|
                    n: Seq<char>,
                    la: Seq<char>,
                    lo: Seq<char>,
                    tz: Seq<char>,
                    ed: Seq<char>,
                |
                    no_quote(n) && no_quote(la) && no_quote(lo) && no_quote(tz) && no_quote(ed)
                        && text@ == #[trigger] spec_render_config(
                        n,
                        la,
                        lo,
                        tz,
                        ed,
                    ) implies false by {
                    lemma_render_structure(n, la, lo, tz, ed);
                    lemma_field_at_unique(text@, p0 as int, name@, n, seg1());
                    lemma_field_at_unique(text@, pos1 as int, latitude@, la, seg2());
                    lemma_field_at_unique(text@, pos2 as int, longitude@, lo, seg3());
                }
            }
            return None;
        },
    };
    let (editor, pos5) = match read_value(text, pos4, "\"\n") {
        Some(p) => p,
        None => {
            proof {
                assert forall|
                    n: Seq<char>,
                    la: Seq<char>,
                    lo: Seq<char>,
                    tz: Seq<char>,
                    ed: Seq<char>,
                |
                    no_quote(n) && no_quote(la) && no_quote(lo) && no_quote(tz) && no_quote(ed)
                        && text@ == #[trigger] spec_render_config(
                        n,
                        la,
                        lo,
                        tz,
                        ed,
                    ) implies false by {
                    lemma_render_structure(n, la, lo, tz, ed);
                    lemma_field_at_unique(text@, p0 as int, name@, n, seg1());
                    lemma_field_at_unique(text@, pos1 as int, latitude@, la, seg2());
                    lemma_field_at_unique(text@, pos2 as int, longitude@, lo, seg3());
                    lemma_field_at_unique(text@, pos3 as int, timezone@, tz, seg4());
                }
            }
            return None;
        },
    };
    if pos5 != n_total {
        proof {
            assert forall|n: Seq<char>, la: Seq<char>, lo: Seq<char>, tz: Seq<char>, ed: Seq<char>|
                no_quote(n) && no_quote(la) && no_quote(lo) && no_quote(tz) && no_quote(ed)
                    && text@ == #[trigger] spec_render_config(n, la, lo, tz, ed) implies false by {
                lemma_render_structure(n, la, lo, tz, ed);
                lemma_field_at_unique(text@, p0 as int, name@, n, seg1());
                lemma_field_at_unique(text@, pos1 as int, latitude@, la, seg2());
                lemma_field_at_unique(text@, pos2 as int, longitude@, lo, seg3());
                lemma_field_at_unique(text@, pos3 as int, timezone@, tz, seg4());
                lemma_field_at_unique(text@, pos4 as int, editor@, ed, seg5());
            }
        }
        return None;
    }
    let c = Config {
        location_full_name: name,
        location_latitude: latitude,
        location_longitude: longitude,
        timezone: timezone,
        editor: editor,
    };
    proof {
        lemma_fields_to_render(
            text@,
            c.location_full_name@,
            c.location_latitude@,
            c.location_longitude@,
            c.timezone@,
            c.editor@,
        );
        assert forall|n: Seq<char>, la: Seq<char>, lo: Seq<char>, tz: Seq<char>, ed: Seq<char>|
            no_quote(n) && no_quote(la) && no_quote(lo) && no_quote(tz) && no_quote(ed) && text@
                == #[trigger] spec_render_config(n, la, lo, tz, ed) implies (c.location_full_name@
            == n && c.location_latitude@ == la && c.location_longitude@ == lo && c.timezone@ == tz
            && c.editor@ == ed) by {
            lemma_render_structure(n, la, lo, tz, ed);
            lemma_field_at_unique(text@, p0 as int, c.location_full_name@, n, seg1());
            lemma_field_at_unique(text@, pos1 as int, c.location_latitude@, la, seg2());
            lemma_field_at_unique(text@, pos2 as int, c.location_longitude@, lo, seg3());
            lemma_field_at_unique(text@, pos3 as int, c.timezone@, tz, seg4());
            lemma_field_at_unique(text@, pos4 as int, c.editor@, ed, seg5());
        }
    }
    Some(c)
}

} // verus!
