//! Expansion of the placeholders found in a leaf command of a layout tree.
use vstd::prelude::*;

verus! {

/// What can go wrong while expanding a command template.
#[derive(Debug)]
pub enum CmdParsingError {
    /// The placeholder between the braces is not a known name.
    UnknownPlaceholder(String),
    /// A `}` closes a placeholder that was never opened.
    ClosingBracketNoOpening,
    /// The template ends inside a placeholder.
    OpeningBracketNoClosing,
}

/// Mathematical counterpart of [`CmdParsingError`].
pub enum TemplateFault {
    UnknownPlaceholder(Seq<char>),
    ClosingBracketNoOpening,
    OpeningBracketNoClosing,
}

impl View for CmdParsingError {
    type V = TemplateFault;

    open spec fn view(&self) -> TemplateFault {
        match self {
            CmdParsingError::UnknownPlaceholder(k) => TemplateFault::UnknownPlaceholder(k@),
            CmdParsingError::ClosingBracketNoOpening => TemplateFault::ClosingBracketNoOpening,
            CmdParsingError::OpeningBracketNoClosing => TemplateFault::OpeningBracketNoClosing,
        }
    }
}

/// The one placeholder name that templates may use.
pub open spec fn wdir_placeholder() -> Seq<char> {
    seq!['S', 'p', 'a', 'c', 'e', '.', 'w', 'd', 'i', 'r']
}

/// Scans `s` from position `i` on, `out` being what was produced so far and
/// `key` the name collected since an opening brace, if one is open.
pub open spec fn scan(
    s: Seq<char>,
    wdir: Seq<char>,
    i: int,
    out: Seq<char>,
    key: Option<Seq<char>>,
) -> Result<Seq<char>, TemplateFault>
    decreases s.len() - i,
{
    if i >= s.len() {
        if key is Some && key->0.len() > 0 {
            Err(TemplateFault::OpeningBracketNoClosing)
        } else {
            Ok(out)
        }
    } else if s[i] == '{' {
        scan(s, wdir, i + 1, out, Some(Seq::empty()))
    } else if s[i] == '}' {
        match key {
            Some(k) => if k == wdir_placeholder() {
                scan(s, wdir, i + 1, out + wdir, None)
            } else {
                Err(TemplateFault::UnknownPlaceholder(k))
            },
            None => Err(TemplateFault::ClosingBracketNoOpening),
        }
    } else {
        match key {
            Some(k) => scan(s, wdir, i + 1, out, Some(k.push(s[i]))),
            None => scan(s, wdir, i + 1, out.push(s[i]), None),
        }
    }
}

/// The expansion of template `s` for a space whose working directory is `wdir`.
pub open spec fn expand(s: Seq<char>, wdir: Seq<char>) -> Result<Seq<char>, TemplateFault> {
    scan(s, wdir, 0, Seq::empty(), None)
}

/// A template without braces.
pub open spec fn is_plain(s: Seq<char>) -> bool {
    forall|i: int| 0 <= i < s.len() ==> s[i] != '{' && s[i] != '}'
}

/// Scanning characters without braces while no placeholder is open copies them.
proof fn lemma_scan_plain(s: Seq<char>, wdir: Seq<char>, i: int, out: Seq<char>)
    requires
        0 <= i <= s.len(),
        is_plain(s),
    ensures
        scan(s, wdir, i, out, None) == Ok::<Seq<char>, TemplateFault>(out + s.subrange(i, s.len() as int)),
    decreases s.len() - i,
{
    if i < s.len() {
        lemma_scan_plain(s, wdir, i + 1, out.push(s[i]));
        assert(out.push(s[i]) + s.subrange(i + 1, s.len() as int) =~= out + s.subrange(i, s.len() as int));
    } else {
        assert(out + s.subrange(i, s.len() as int) =~= out);
    }
}

/// Scanning characters without braces inside an open placeholder collects them
/// into its name.
proof fn lemma_scan_name(s: Seq<char>, wdir: Seq<char>, i: int, j: int, out: Seq<char>, k: Seq<char>)
    requires
        0 <= i <= j <= s.len(),
        forall|m: int| i <= m < j ==> s[m] != '{' && s[m] != '}',
    ensures
        scan(s, wdir, i, out, Some(k)) == scan(s, wdir, j, out, Some(k + s.subrange(i, j))),
    decreases j - i,
{
    if i < j {
        lemma_scan_name(s, wdir, i + 1, j, out, k.push(s[i]));
        assert(k.push(s[i]) + s.subrange(i + 1, j) =~= k + s.subrange(i, j));
    } else {
        assert(k + s.subrange(i, j) =~= k);
    }
}

/// A template without placeholders expands to itself.
pub proof fn lemma_plain_template_unchanged(s: Seq<char>, wdir: Seq<char>)
    requires
        is_plain(s),
    ensures
        expand(s, wdir) == Ok::<Seq<char>, TemplateFault>(s),
{
    lemma_scan_plain(s, wdir, 0, Seq::empty());
    assert(Seq::<char>::empty() + s.subrange(0, s.len() as int) =~= s);
}

/// The template made of the working-directory placeholder alone expands to
/// the working directory, whatever it is.
pub proof fn lemma_wdir_placeholder_alone(wdir: Seq<char>)
    ensures
        expand(seq!['{'] + wdir_placeholder() + seq!['}'], wdir) == Ok::<Seq<char>, TemplateFault>(wdir),
{
    let s = seq!['{'] + wdir_placeholder() + seq!['}'];
    assert(s.len() == 12);
    assert(s[0] == '{');
    assert(s[11] == '}');
    assert forall|m: int| 1 <= m < 11 implies s[m] != '{' && s[m] != '}' by {
        assert(s[m] == wdir_placeholder()[m - 1]);
    }
    lemma_scan_name(s, wdir, 1, 11, Seq::empty(), Seq::empty());
    assert(Seq::<char>::empty() + s.subrange(1, 11) =~= wdir_placeholder());
    assert(Seq::<char>::empty() + wdir =~= wdir);
    assert(scan(s, wdir, 12, wdir, None) == Ok::<Seq<char>, TemplateFault>(wdir));
    assert(scan(s, wdir, 11, Seq::empty(), Some(wdir_placeholder())) == scan(s, wdir, 12, wdir, None));
    assert(expand(s, wdir) == scan(s, wdir, 1, Seq::empty(), Some(Seq::empty())));
}

/// Relies on `String::push`: the character is appended at the end.
#[verifier::external_body]
pub(crate) fn push_char(s: &mut String, c: char)
    ensures
        final(s)@ == old(s)@.push(c),
{
    s.push(c)
}

/// Expands the placeholders of `cmd`: `{Space.wdir}` becomes `wdir`, and
/// every character outside braces is copied as it is.
pub fn expand_template(cmd: &str, wdir: &str) -> (r: Result<String, CmdParsingError>)
    ensures
        match r {
            Ok(s) => expand(cmd@, wdir@) == Ok::<Seq<char>, TemplateFault>(s@),
            Err(e) => expand(cmd@, wdir@) == Err::<Seq<char>, TemplateFault>(e@),
        },
{
    let n = cmd.unicode_len();
    let mut res = String::new();
    let mut key: Option<String> = None;
    let name = String::from_str("Space.wdir");
    proof {
        reveal_strlit("Space.wdir");
        assert(name@ =~= wdir_placeholder());
    }
    let mut i: usize = 0;
    while i < n
        invariant
            n == cmd@.len(),
            i <= n,
            name@ == wdir_placeholder(),
            scan(cmd@, wdir@, i as int, res@, match key {
                Some(k) => Some(k@),
                None => None,
            }) == expand(cmd@, wdir@),
        decreases n - i,
    {
        let ch = cmd.get_char(i);
        if ch == '{' {
            key = Some(String::new());
        } else if ch == '}' {
            match key {
                Some(k) => {
                    if k == name {
                        res.append(wdir);
                        key = None;
                    } else {
                        return Err(CmdParsingError::UnknownPlaceholder(k));
                    }
                },
                None => {
                    return Err(CmdParsingError::ClosingBracketNoOpening);
                },
            }
        } else {
            match key {
                Some(mut k) => {
                    push_char(&mut k, ch);
                    key = Some(k);
                },
                None => {
                    push_char(&mut res, ch);
                },
            }
        }
        i = i + 1;
    }
    match key {
        Some(k) => {
            if k.unicode_len() > 0 {
                return Err(CmdParsingError::OpeningBracketNoClosing);
            }
        },
        None => {},
    }
    Ok(res)
}

} // verus!
