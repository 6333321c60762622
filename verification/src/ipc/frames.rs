//! Requests on the wire: one to a line, none too long.
use crate::ipc::MAX_REQUEST_BYTES;
use crate::operations;
use crate::seqs;
use vstd::prelude::*;

verus! {

/// What a client has sent.
#[derive(Debug)]
pub enum BoundedLine {
    /// Nothing more.
    Eof,
    /// A line, without its end.
    Line(Vec<u8>),
    /// More than a request may have.
    TooLarge,
}

/// What a `BoundedLine` says.
pub enum BoundedLineView {
    Eof,
    Line(Seq<u8>),
    TooLarge,
}

impl View for BoundedLine {
    type V = BoundedLineView;

    open spec fn view(&self) -> BoundedLineView {
        match *self {
            BoundedLine::Eof => BoundedLineView::Eof,
            BoundedLine::Line(line) => BoundedLineView::Line(line@),
            BoundedLine::TooLarge => BoundedLineView::TooLarge,
        }
    }
}

/// How reading goes on after a piece: with a longer line, or to its end. Then so
/// many bytes of the piece belong to it.
pub enum FrameStep {
    More(Vec<u8>),
    Done { frame: BoundedLine, consumed: usize },
}

/// What a `FrameStep` says.
pub enum FrameStepView {
    More(Seq<u8>),
    Done { frame: BoundedLineView, consumed: nat },
}

impl View for FrameStep {
    type V = FrameStepView;

    open spec fn view(&self) -> FrameStepView {
        match *self {
            FrameStep::More(line) => FrameStepView::More(line@),
            FrameStep::Done { frame, consumed } => FrameStepView::Done {
                frame: frame@,
                consumed: consumed as nat,
            },
        }
    }
}

/// What becomes of a line when the next piece comes. An empty piece is the end.
pub open spec fn fed(line: Seq<u8>, piece: Seq<u8>) -> FrameStepView {
    let end = seqs::until(piece, operations::is_line_end());
    if piece.len() == 0 {
        FrameStepView::Done {
            frame: if line.len() == 0 {
                BoundedLineView::Eof
            } else {
                BoundedLineView::Line(line)
            },
            consumed: 0,
        }
    } else if line.len() + end > MAX_REQUEST_BYTES {
        FrameStepView::Done { frame: BoundedLineView::TooLarge, consumed: 0 }
    } else if end < piece.len() {
        FrameStepView::Done {
            frame: BoundedLineView::Line(line + piece.take(end as int)),
            consumed: end + 1,
        }
    } else {
        FrameStepView::More(line + piece)
    }
}

/// Takes the next piece of a line.
pub fn read_bounded_line(line: Vec<u8>, piece: &[u8]) -> (step: FrameStep)
    requires
        line@.len() <= MAX_REQUEST_BYTES,
    ensures
        step@ == fed(line@, piece@),
{
    if piece.len() == 0 {
        let frame = if line.len() == 0 {
            BoundedLine::Eof
        } else {
            BoundedLine::Line(line)
        };
        return FrameStep::Done { frame, consumed: 0 };
    }
    let mut end: usize = 0;
    while end < piece.len() && piece[end] != 10u8
        invariant
            end <= piece@.len(),
            forall|j: int| 0 <= j < end ==> !operations::is_line_end()(#[trigger] piece@[j]),
        decreases piece@.len() - end,
    {
        end += 1;
    }
    proof {
        seqs::lemma_until(piece@, operations::is_line_end(), end as nat);
    }
    if end > MAX_REQUEST_BYTES - line.len() {
        return FrameStep::Done { frame: BoundedLine::TooLarge, consumed: 0 };
    }
    let ghost start = line@;
    let mut line = line;
    let mut i: usize = 0;
    assert(line@ =~= start + piece@.take(0));
    while i < end
        invariant
            i <= end <= piece@.len(),
            line@ == start + piece@.take(i as int),
        decreases end - i,
    {
        line.push(piece[i]);
        assert(line@ =~= start + piece@.take(i + 1));
        i += 1;
    }
    if end < piece.len() {
        FrameStep::Done { frame: BoundedLine::Line(line), consumed: end + 1 }
    } else {
        assert(piece@.take(end as int) =~= piece@);
        FrameStep::More(line)
    }
}

/// Whether a line holds nothing but white.
pub open spec fn is_white_byte(byte: u8) -> bool {
    byte == 32 || byte == 9 || byte == 10 || byte == 12 || byte == 13
}

/// Whether a line is passed over.
pub fn is_blank_line(line: &Vec<u8>) -> (blank: bool)
    ensures
        blank == forall|i: int| 0 <= i < line@.len() ==> is_white_byte(#[trigger] line@[i]),
{
    let mut i: usize = 0;
    while i < line.len()
        invariant
            i <= line@.len(),
            forall|j: int| 0 <= j < i ==> is_white_byte(#[trigger] line@[j]),
        decreases line@.len() - i,
    {
        let byte = line[i];
        if byte != 32 && byte != 9 && byte != 10 && byte != 12 && byte != 13 {
            assert(!is_white_byte(line@[i as int]));
            return false;
        }
        i += 1;
    }
    true
}

// ---------------------------------------------------------------------------
// Laws
// ---------------------------------------------------------------------------

/// The bytes of all pieces.
pub open spec fn all_bytes(pieces: Seq<Seq<u8>>) -> Seq<u8>
    decreases pieces.len(),
{
    if pieces.len() == 0 {
        Seq::empty()
    } else {
        pieces[0] + all_bytes(pieces.skip(1))
    }
}

/// What is read of the pieces when they come one after the other.
pub open spec fn read_pieces(line: Seq<u8>, pieces: Seq<Seq<u8>>) -> BoundedLineView
    decreases pieces.len(),
{
    let piece = if pieces.len() == 0 {
        Seq::empty()
    } else {
        pieces[0]
    };
    match fed(line, piece) {
        FrameStepView::Done { frame, .. } => frame,
        FrameStepView::More(longer) => if pieces.len() == 0 {
            BoundedLineView::Line(longer)
        } else {
            read_pieces(longer, pieces.skip(1))
        },
    }
}

/// What is read when all bytes come at once.
pub open spec fn read_whole(bytes: Seq<u8>) -> BoundedLineView {
    let end = seqs::until(bytes, operations::is_line_end());
    if end > MAX_REQUEST_BYTES {
        BoundedLineView::TooLarge
    } else if bytes.len() == 0 {
        BoundedLineView::Eof
    } else {
        BoundedLineView::Line(bytes.take(end as int))
    }
}

/// A request does not depend on the pieces in which it comes: its bytes up to
/// the first line end are read, and it is too large exactly where these are too
/// many.
pub proof fn pieces_do_not_matter(pieces: Seq<Seq<u8>>)
    requires
        forall|i: int| 0 <= i < pieces.len() ==> (#[trigger] pieces[i]).len() > 0,
    ensures
        read_pieces(Seq::empty(), pieces) == read_whole(all_bytes(pieces)),
{
    assert(Seq::<u8>::empty() + all_bytes(pieces) =~= all_bytes(pieces));
    lemma_pieces(Seq::empty(), pieces);
}

proof fn lemma_pieces(line: Seq<u8>, pieces: Seq<Seq<u8>>)
    requires
        line.len() <= MAX_REQUEST_BYTES,
        forall|j: int| 0 <= j < line.len() ==> !operations::is_line_end()(#[trigger] line[j]),
        forall|i: int| 0 <= i < pieces.len() ==> (#[trigger] pieces[i]).len() > 0,
    ensures
        read_pieces(line, pieces) == read_whole(line + all_bytes(pieces)),
    decreases pieces.len(),
{
    let stop = operations::is_line_end();
    let whole = line + all_bytes(pieces);
    if pieces.len() == 0 {
        assert(whole =~= line);
        seqs::lemma_until(line, stop, line.len());
        assert(line.take(line.len() as int) =~= line);
    } else {
        let piece = pieces[0];
        let rest = all_bytes(pieces.skip(1));
        let end = seqs::until(piece, stop);
        seqs::lemma_until_bounds(piece, stop);
        assert(whole =~= line + piece + rest);
        if end < piece.len() {
            let at: nat = line.len() + end;
            assert forall|j: int| 0 <= j < at implies !stop(#[trigger] whole[j]) by {
                if j < line.len() {
                    assert(whole[j] == line[j]);
                } else {
                    assert(whole[j] == piece[j - line.len()]);
                }
            }
            assert(whole[at as int] == piece[end as int]);
            seqs::lemma_until(whole, stop, at);
            assert(whole.take(at as int) =~= line + piece.take(end as int));
        } else {
            let longer = line + piece;
            assert forall|j: int| 0 <= j < longer.len() implies !stop(#[trigger] longer[j]) by {
                if j < line.len() {
                    assert(longer[j] == line[j]);
                } else {
                    assert(longer[j] == piece[j - line.len()]);
                }
            }
            if longer.len() <= MAX_REQUEST_BYTES {
                assert forall|i: int| 0 <= i < pieces.skip(1).len() implies (
                #[trigger] pieces.skip(1)[i]).len() > 0 by {
                    assert(pieces.skip(1)[i] == pieces[i + 1]);
                }
                lemma_pieces(longer, pieces.skip(1));
            } else {
                seqs::lemma_until_bounds(whole, stop);
                let n = seqs::until(whole, stop);
                if n < longer.len() {
                    assert(whole[n as int] == longer[n as int]);
                }
            }
        }
    }
}

} // verus!
