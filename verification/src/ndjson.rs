//! Framing of a streamed reply body: the server sends one JSON object per
//! line, and the body arrives in chunks that may cut a line anywhere. The
//! buffer here hands out each complete line once, in order, and keeps the cut
//! end of the last one until the rest of it arrives.

use vstd::prelude::*;

verus! {

/// The byte that ends a line.
pub const NEWLINE: u8 = 0x0a;

/// The non-empty lines completed by the bytes `s` after the unfinished line
/// `partial`, and the unfinished line left at the end: each newline ends the
/// line being gathered, which is handed out unless it is empty; every other
/// byte is added to it.
pub open spec fn lines_of(s: Seq<u8>, partial: Seq<u8>) -> (Seq<Seq<u8>>, Seq<u8>)
    decreases s.len(),
{
    if s.len() == 0 {
        (Seq::empty(), partial)
    } else if s[0] == NEWLINE {
        let rest = lines_of(s.drop_first(), Seq::empty());
        (if partial.len() == 0 {
            rest.0
        } else {
            seq![partial] + rest.0
        }, rest.1)
    } else {
        lines_of(s.drop_first(), partial.push(s[0]))
    }
}

/// The views of a sequence of lines.
pub open spec fn line_views(lines: Seq<Vec<u8>>) -> Seq<Seq<u8>> {
    lines.map_values(|l: Vec<u8>| l@)
}

/// How the bytes are cut into chunks does not matter: the lines of two
/// chunks read one after the other are the lines of the two read as one.
pub proof fn law_chunking_does_not_matter(a: Seq<u8>, b: Seq<u8>, partial: Seq<u8>)
    ensures
        ({
            let first = lines_of(a, partial);
            let second = lines_of(b, first.1);
            lines_of(a + b, partial) == (first.0 + second.0, second.1)
        }),
    decreases a.len(),
{
    if a.len() == 0 {
        assert(a + b =~= b);
        assert(Seq::<Seq<u8>>::empty() + lines_of(b, partial).0 =~= lines_of(b, partial).0);
    } else {
        assert((a + b).drop_first() =~= a.drop_first() + b);
        assert((a + b)[0] == a[0]);
        if a[0] == NEWLINE {
            law_chunking_does_not_matter(a.drop_first(), b, Seq::empty());
            let r = lines_of(a.drop_first(), Seq::empty());
            let second = lines_of(b, r.1);
            if partial.len() != 0 {
                assert(seq![partial] + r.0 + second.0 =~= seq![partial] + (r.0 + second.0));
            }
        } else {
            law_chunking_does_not_matter(a.drop_first(), b, partial.push(a[0]));
        }
    }
}

/// A piece of a line: bytes with no newline among them.
pub open spec fn no_newline(l: Seq<u8>) -> bool {
    forall|i: int| 0 <= i < l.len() ==> l[i] != NEWLINE
}

/// Bytes with no newline complete no line: they are added to the unfinished
/// one. A newline after them completes the unfinished line together with
/// them, which is handed out whole unless it is empty, and nothing is left
/// unfinished. With `law_chunking_does_not_matter`, this fixes the lines of
/// every body: the non-empty runs of bytes between newlines, in order.
pub proof fn law_line_pieces(l: Seq<u8>, partial: Seq<u8>)
    requires
        no_newline(l),
    ensures
        lines_of(l, partial) == (Seq::<Seq<u8>>::empty(), partial + l),
        lines_of(l.push(NEWLINE), partial) == (if (partial + l).len() == 0 {
            Seq::<Seq<u8>>::empty()
        } else {
            seq![partial + l]
        }, Seq::<u8>::empty()),
    decreases l.len(),
{
    if l.len() == 0 {
        assert(partial + l =~= partial);
        assert(l.push(NEWLINE) =~= seq![NEWLINE]);
        assert(seq![NEWLINE].drop_first() =~= Seq::<u8>::empty());
        assert(lines_of(Seq::<u8>::empty(), Seq::<u8>::empty()) == (
            Seq::<Seq<u8>>::empty(),
            Seq::<u8>::empty(),
        ));
        assert(lines_of(seq![NEWLINE], partial).1 == Seq::<u8>::empty());
        assert(Seq::<Seq<u8>>::empty() =~= Seq::<Seq<u8>>::empty());
        assert(seq![partial] + Seq::<Seq<u8>>::empty() =~= seq![partial]);
    } else {
        let rest = l.drop_first();
        assert(no_newline(rest)) by {
            assert forall|i: int| 0 <= i < rest.len() implies rest[i] != NEWLINE by {
                assert(rest[i] == l[i + 1]);
            }
        }
        law_line_pieces(rest, partial.push(l[0]));
        assert(partial.push(l[0]) + rest =~= partial + l);
        assert(l.push(NEWLINE).drop_first() =~= rest.push(NEWLINE));
        assert(l.push(NEWLINE)[0] == l[0]);
        assert(l[0] != NEWLINE);
        assert(lines_of(l.push(NEWLINE), partial) == lines_of(rest.push(NEWLINE), partial.push(l[0])));
        assert(lines_of(l, partial) == lines_of(rest, partial.push(l[0])));
    }
}

/// Unfolds `lines_of` by one byte.
proof fn lemma_lines_of_step(s: Seq<u8>, i: int, partial: Seq<u8>)
    requires
        0 <= i < s.len(),
    ensures
        lines_of(s.skip(i), partial) == (if s[i] == NEWLINE {
            let rest = lines_of(s.skip(i + 1), Seq::empty());
            (if partial.len() == 0 {
                rest.0
            } else {
                seq![partial] + rest.0
            }, rest.1)
        } else {
            lines_of(s.skip(i + 1), partial.push(s[i]))
        }),
{
    assert(s.skip(i).drop_first() =~= s.skip(i + 1));
    assert(s.skip(i)[0] == s[i]);
}

/// The unfinished line of a streamed body.
#[derive(Debug, Clone)]
pub struct LineBuffer {
    pub partial: Vec<u8>,
}

impl LineBuffer {
    /// A buffer that holds nothing yet.
    pub fn new() -> (res: LineBuffer)
        ensures
            res.partial@ == Seq::<u8>::empty(),
    {
        LineBuffer { partial: Vec::new() }
    }

    /// Takes in the next chunk of the body; hands back the non-empty lines it
    /// completes, in order, without their newlines, and keeps the unfinished
    /// rest.
    pub fn push(&mut self, chunk: &[u8]) -> (lines: Vec<Vec<u8>>)
        ensures
            (line_views(lines@), final(self).partial@) == lines_of(chunk@, old(self).partial@),
    {
        let ghost start = self.partial@;
        let mut lines: Vec<Vec<u8>> = Vec::new();
        let mut i: usize = 0;
        proof {
            assert(chunk@.skip(0) =~= chunk@);
            assert(line_views(lines@) =~= Seq::<Seq<u8>>::empty());
            assert(line_views(lines@) + lines_of(chunk@, start).0 =~= lines_of(chunk@, start).0);
        }
        while i < chunk.len()
            invariant
                i <= chunk.len(),
                lines_of(chunk@, start) == (
                    line_views(lines@) + lines_of(chunk@.skip(i as int), self.partial@).0,
                    lines_of(chunk@.skip(i as int), self.partial@).1,
                ),
            decreases chunk.len() - i,
        {
            let byte = chunk[i];
            proof {
                lemma_lines_of_step(chunk@, i as int, self.partial@);
            }
            if byte == NEWLINE {
                let ghost before = line_views(lines@);
                let ghost cur = self.partial@;
                if self.partial.len() > 0 {
                    let mut line: Vec<u8> = Vec::new();
                    std::mem::swap(&mut line, &mut self.partial);
                    lines.push(line);
                    proof {
                        let rest = lines_of(chunk@.skip(i + 1), Seq::empty());
                        assert(line_views(lines@) =~= before.push(cur));
                        assert(before + (seq![cur] + rest.0) =~= before.push(cur) + rest.0);
                    }
                } else {
                    self.partial = Vec::new();
                    proof {
                        assert(self.partial@ =~= Seq::<u8>::empty());
                    }
                }
            } else {
                self.partial.push(byte);
            }
            i = i + 1;
        }
        proof {
            assert(chunk@.skip(chunk.len() as int) =~= Seq::<u8>::empty());
            assert(line_views(lines@) + Seq::<Seq<u8>>::empty() =~= line_views(lines@));
        }
        lines
    }

    /// The last line of a body that ended without a newline, if any is left.
    pub fn finish(&self) -> (res: Option<Vec<u8>>)
        ensures
            match res {
                Some(l) => l@ == self.partial@ && self.partial@.len() > 0,
                None => self.partial@.len() == 0,
            },
    {
        if self.partial.len() > 0 {
            Some(self.partial.clone())
        } else {
            None
        }
    }
}

} // verus!
