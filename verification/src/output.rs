//! Reading what a `yt-dlp` run printed: its bytes as text, its non-blank
//! lines, and what a stream-URL resolution came to.
use vstd::prelude::*;
use vstd::utf8::{decode_utf8, valid_utf8};
use crate::app::ResolveEvent;
use crate::text::{str_trim, trimmed};

verus! {

/// The text that `String::from_utf8_lossy` makes of some bytes.
pub uninterp spec fn lossy_text(bytes: Seq<u8>) -> Seq<char>;

/// `String::from_utf8_lossy`: the bytes as text. Valid UTF-8 is decoded as
/// it is; what the text is for invalid input (each invalid sequence becomes
/// U+FFFD) is left to the name [`lossy_text`].
#[verifier::external_body]
pub fn lossy_utf8(bytes: &[u8]) -> (r: String)
    ensures
        r@ == lossy_text(bytes@),
        valid_utf8(bytes@) ==> r@ == decode_utf8(bytes@),
{
    String::from_utf8_lossy(bytes).into_owned()
}

/// `s` cut at each `\n` (the pieces of `str::split('\n')`).
pub open spec fn pieces(s: Seq<char>) -> Seq<Seq<char>>
    decreases s.len(),
{
    if s.len() == 0 {
        seq![Seq::empty()]
    } else {
        let r = pieces(s.drop_last());
        if s.last() == '\n' {
            r.push(Seq::empty())
        } else {
            r.update(r.len() - 1, r.last().push(s.last()))
        }
    }
}

/// The pieces that are not blank, trimmed, in order.
pub open spec fn kept(p: Seq<Seq<char>>) -> Seq<Seq<char>>
    decreases p.len(),
{
    if p.len() == 0 {
        Seq::empty()
    } else {
        let r = kept(p.drop_last());
        if trimmed(p.last()).len() > 0 { r.push(trimmed(p.last())) } else { r }
    }
}

/// The non-blank lines of `s`, trimmed, in order. (`str::lines` also drops
/// a `\r` before each `\n` and a last empty line; neither survives trimming
/// and dropping blank lines, so cutting at `\n` gives the same result.)
pub open spec fn nonblank_lines_of(s: Seq<char>) -> Seq<Seq<char>> {
    kept(pieces(s))
}

proof fn lemma_pieces_nonempty(s: Seq<char>)
    ensures
        pieces(s).len() >= 1,
    decreases s.len(),
{
    if s.len() > 0 {
        lemma_pieces_nonempty(s.drop_last());
    }
}

/// The non-blank lines of `text`, each trimmed, in order.
pub fn nonblank_lines(text: &str) -> (r: Vec<String>)
    ensures
        r@.map_values(|l: String| l@) == nonblank_lines_of(text@),
{
    broadcast use vstd::string::axiom_spec_iter;
    let mut out: Vec<String> = Vec::new();
    let mut cur = String::new();
    let ghost mut done: Seq<Seq<char>> = Seq::empty();
    let ghost len = text@.len();
    assert(text@.take(0) =~= Seq::<char>::empty());
    for c in it: text.chars()
        invariant
            it.seq() == text@,
            len == text@.len(),
            pieces(text@.take(it.index())) == done.push(cur@),
            out@.map_values(|l: String| l@) == kept(done),
    {
        let ghost i = it.index();
        proof {
            assert(text@.take(i + 1).drop_last() =~= text@.take(i));
            assert(text@.take(i + 1).last() == c);
            lemma_pieces_nonempty(text@.take(i));
        }
        if c == '\n' {
            let t = str_trim(cur.as_str());
            let ghost old_out = out@;
            if !t.is_empty() {
                out.push(String::from_str(t));
                assert(out@.map_values(|l: String| l@) =~= old_out.map_values(|l: String| l@).push(t@));
            }
            proof {
                assert(done.push(cur@).drop_last() =~= done);
                done = done.push(cur@);
            }
            cur = String::new();
            proof {
                assert(pieces(text@.take(i + 1)) =~= done.push(cur@));
            }
        } else {
            crate::text::string_push(&mut cur, c);
            proof {
                assert(pieces(text@.take(i + 1)) =~= done.push(cur@));
            }
        }
    }
    assert(text@.take(len as int) =~= text@);
    let t = str_trim(cur.as_str());
    let ghost old_out = out@;
    if !t.is_empty() {
        out.push(String::from_str(t));
        assert(out@.map_values(|l: String| l@) =~= old_out.map_values(|l: String| l@).push(t@));
    }
    assert(done.push(cur@).drop_last() =~= done);
    out
}

/// What a finished stream-URL resolution reports. A failed run reports the
/// last non-blank line of its error output (`yt-dlp failed` if there is
/// none); a successful one the first non-blank line of its output, or
/// `yt-dlp returned no URL` if there is none.
pub open spec fn resolution(req: u64, success: bool, out: Seq<char>, err: Seq<char>) -> (bool, Seq<char>) {
    if !success {
        let e = nonblank_lines_of(err);
        (false, if e.len() > 0 { e.last() } else { "yt-dlp failed"@ })
    } else {
        let o = nonblank_lines_of(out);
        if o.len() > 0 { (true, o[0]) } else { (false, "yt-dlp returned no URL"@) }
    }
}

/// The report of a finished `yt-dlp -g` run for play request `req`, from
/// its exit status and what it printed.
pub fn resolve_outcome(req: u64, success: bool, stdout: &[u8], stderr: &[u8]) -> (r: ResolveEvent)
    ensures
        ({
            let (ok, text) = resolution(req, success, lossy_text(stdout@), lossy_text(stderr@));
            match r {
                ResolveEvent::Resolved { req: q, stream_url } => ok && q == req && stream_url@ == text,
                ResolveEvent::Failed { req: q, err } => !ok && q == req && err@ == text,
            }
        }),
{
    if !success {
        let text = lossy_utf8(stderr);
        let lines = nonblank_lines(text.as_str());
        let n = lines.len();
        let msg = if n > 0 {
            proof {
                assert(lines@.map_values(|l: String| l@)[n - 1] == lines@[n - 1]@);
            }
            lines[n - 1].clone()
        } else {
            String::from_str("yt-dlp failed")
        };
        ResolveEvent::Failed { req, err: msg }
    } else {
        let text = lossy_utf8(stdout);
        let lines = nonblank_lines(text.as_str());
        if lines.len() > 0 {
            proof {
                assert(lines@.map_values(|l: String| l@)[0] == lines@[0]@);
            }
            ResolveEvent::Resolved { req, stream_url: lines[0].clone() }
        } else {
            ResolveEvent::Failed { req, err: String::from_str("yt-dlp returned no URL") }
        }
    }
}

/// The error reported when `yt-dlp` could not be started at all.
pub fn invoke_failure(e: &str) -> (r: String)
    ensures
        r@ == "failed to invoke yt-dlp: "@ + e@,
{
    String::from_str("failed to invoke yt-dlp: ").concat(e)
}

/// A search run counts as failed only when it exited unsuccessfully and
/// printed nothing; its error is then its error output as text.
pub fn search_error(success: bool, stdout: &[u8], stderr: &[u8]) -> (r: Option<String>)
    ensures
        match r {
            Some(e) => !success && stdout@.len() == 0 && e@ == lossy_text(stderr@),
            None => success || stdout@.len() > 0,
        },
{
    if !success && stdout.len() == 0 {
        Some(lossy_utf8(stderr))
    } else {
        None
    }
}

} // verus!
