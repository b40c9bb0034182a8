//! Text as sequences of characters, and the pieces a report is put together from.

use vstd::prelude::*;

verus! {

/// The pieces written one after another, first piece first.
pub open spec fn concat(pieces: Seq<Seq<char>>) -> Seq<char>
    decreases pieces.len(),
{
    if pieces.len() == 0 {
        Seq::empty()
    } else {
        concat(pieces.drop_last()) + pieces.last()
    }
}

/// Writing the first `k + 1` pieces is writing the first `k` and then piece `k`.
pub proof fn lemma_concat_step(pieces: Seq<Seq<char>>, k: int)
    requires
        0 <= k < pieces.len(),
    ensures
        concat(pieces.take(k + 1)) == concat(pieces.take(k)) + pieces[k],
{
    assert(pieces.take(k + 1).drop_last() =~= pieces.take(k));
}

/// Writing no piece writes nothing, and taking every piece is taking the whole.
pub proof fn lemma_concat_ends(pieces: Seq<Seq<char>>)
    ensures
        concat(pieces.take(0)) == Seq::<char>::empty(),
        concat(pieces.take(pieces.len() as int)) == concat(pieces),
{
    assert(pieces.take(pieces.len() as int) =~= pieces);
}

/// Writing two lists of pieces one after the other is writing them as one list.
pub proof fn lemma_concat_add(first: Seq<Seq<char>>, second: Seq<Seq<char>>)
    ensures
        concat(first + second) == concat(first) + concat(second),
    decreases second.len(),
{
    if second.len() == 0 {
        assert(first + second =~= first);
    } else {
        lemma_concat_add(first, second.drop_last());
        assert((first + second).drop_last() =~= first + second.drop_last());
    }
}

/// The text of each string, in order: of each cell of a row, of each path of a list.
pub open spec fn texts(strings: Seq<String>) -> Seq<Seq<char>> {
    Seq::new(strings.len(), |j: int| strings[j]@)
}

/// The text of each cell of each row.
pub open spec fn rows_text(rows: Seq<Vec<String>>) -> Seq<Seq<Seq<char>>> {
    Seq::new(rows.len(), |i: int| texts(rows[i]@))
}

} // verus!
