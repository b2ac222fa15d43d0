//! What holds of the record of transfers across several operations.

use crate::asset_map::{
    arithmetic_overflow, piece_texts, spent_lines, transfer_lines, AssetMapEntry,
    AssetMapEntryView, AssetMapView,
};
use crate::errors::{Error, RuntimeErrorType};
use crate::text::decimal;
use crate::transfer_table::TransferKey;
use crate::types::Value;
use vstd::prelude::*;

verus! {

/// Committing a call that sent nothing always succeeds and changes nothing.
pub proof fn law_commit_of_nothing(a: AssetMapView)
    ensures
        a.fits(AssetMapView::empty()),
        a.merged(AssetMapView::empty()) == a,
{
    assert(a.merged(AssetMapView::empty()) =~~= a);
}

/// Committing into a record that is still empty always succeeds and takes the
/// other record over as it is.
pub proof fn law_commit_into_nothing(a: AssetMapView)
    requires
        a.valid(),
    ensures
        AssetMapView::empty().fits(a),
        AssetMapView::empty().merged(a) == a,
{
    assert(AssetMapView::empty().merged(a) =~~= a);
}

/// A record that was committed into another stays one that an asset map can hold.
pub proof fn law_commit_keeps_valid(a: AssetMapView, b: AssetMapView)
    requires
        a.valid(),
        b.valid(),
        a.fits(b),
    ensures
        a.merged(b).valid(),
{
}

/// How calls are nested does not matter: a call committed into its caller, which
/// is then committed into the caller's caller, leaves there what committing the
/// two one after the other leaves, and one way succeeds exactly when the other
/// does.
pub proof fn law_commit_is_associative(a: AssetMapView, b: AssetMapView, c: AssetMapView)
    requires
        a.valid(),
        b.valid(),
        c.valid(),
    ensures
        a.merged(b).merged(c) == a.merged(b.merged(c)),
        (a.fits(b) && a.merged(b).fits(c)) == (b.fits(c) && a.fits(b.merged(c))),
{
    assert(a.merged(b).merged(c) =~~= a.merged(b.merged(c)));
    if a.fits(b) && a.merged(b).fits(c) {
        assert forall|k: TransferKey| #[trigger] c.tokens.contains_key(k) implies b.amount(k)
            + c.tokens[k] <= i128::MAX by {
            assert(a.tokens.contains_key(k) ==> 0 <= a.tokens[k]);
        }
        assert forall|k: TransferKey| #[trigger] b.merged(c).tokens.contains_key(k) implies a.amount(
            k,
        ) + b.merged(c).tokens[k] <= i128::MAX by {
            assert(b.tokens.contains_key(k) || c.tokens.contains_key(k));
        }
    }
    if b.fits(c) && a.fits(b.merged(c)) {
        assert forall|k: TransferKey| #[trigger] b.tokens.contains_key(k) implies a.amount(k)
            + b.tokens[k] <= i128::MAX by {
            assert(b.merged(c).tokens.contains_key(k));
            assert(c.tokens.contains_key(k) ==> 0 <= c.tokens[k]);
        }
        assert forall|k: TransferKey| #[trigger] c.tokens.contains_key(k) implies a.merged(b).amount(
            k,
        ) + c.tokens[k] <= i128::MAX by {
            assert(b.merged(c).tokens.contains_key(k));
        }
    }
}

/// Sending tokens in a nested call and committing it is the same as committing
/// the call without them and sending them in the caller, and one way succeeds
/// exactly when the other does.
pub proof fn law_tokens_through_commit(
    a: AssetMapView,
    b: AssetMapView,
    k: TransferKey,
    amount: int,
)
    requires
        a.valid(),
        b.valid(),
        amount >= 0,
    ensures
        a.merged(b.with_tokens(k, amount)) == a.merged(b).with_tokens(k, amount),
        (b.amount(k) + amount <= i128::MAX && a.fits(b.with_tokens(k, amount))) == (a.fits(b)
            && a.merged(b).amount(k) + amount <= i128::MAX),
{
    let c = b.with_tokens(k, amount);
    assert(a.merged(c) =~~= a.merged(b).with_tokens(k, amount));
    assert(c.tokens.contains_key(k));
    assert(a.tokens.contains_key(k) ==> 0 <= a.tokens[k]);
    if b.amount(k) + amount <= i128::MAX && a.fits(c) {
        assert forall|x: TransferKey| #[trigger] b.tokens.contains_key(x) implies a.amount(x)
            + b.tokens[x] <= i128::MAX by {
            assert(c.tokens.contains_key(x));
        }
    }
    if a.fits(b) && a.merged(b).amount(k) + amount <= i128::MAX {
        assert forall|x: TransferKey| #[trigger] c.tokens.contains_key(x) implies a.amount(x)
            + c.tokens[x] <= i128::MAX by {
            assert(x == k || b.tokens.contains_key(x));
        }
    }
}

/// Sending a piece in a nested call and committing it is the same as committing
/// the call without it and sending it in the caller.
pub proof fn law_asset_through_commit(
    a: AssetMapView,
    b: AssetMapView,
    k: TransferKey,
    piece: Value,
)
    ensures
        a.merged(b.with_asset(k, piece)) == a.merged(b).with_asset(k, piece),
        a.fits(b.with_asset(k, piece)) == a.fits(b),
{
    assert(a.merged(b.with_asset(k, piece)) =~~= a.merged(b).with_asset(k, piece));
}

/// The order in which tokens are sent does not show in the record.
pub proof fn law_token_order(a: AssetMapView, k: TransferKey, m: int, l: TransferKey, n: int)
    ensures
        a.with_tokens(k, m).with_tokens(l, n) == a.with_tokens(l, n).with_tokens(k, m),
        a.with_tokens(k, m).with_tokens(k, n) == a.with_tokens(k, m + n),
{
    assert(a.with_tokens(k, m).with_tokens(l, n) =~~= a.with_tokens(l, n).with_tokens(k, m));
    assert(a.with_tokens(k, m).with_tokens(k, n) =~~= a.with_tokens(k, m + n));
}

/// A commit keeps every piece: those of the caller stay where they were, and
/// those of the call follow in their order.
pub proof fn law_commit_keeps_pieces(a: AssetMapView, b: AssetMapView, k: TransferKey)
    ensures
        a.merged(b).pieces(k).len() == a.pieces(k).len() + b.pieces(k).len(),
        a.merged(b).pieces(k).take(a.pieces(k).len() as int) == a.pieces(k),
        a.merged(b).pieces(k).skip(a.pieces(k).len() as int) == b.pieces(k),
{
    assert(a.merged(b).pieces(k) =~= a.pieces(k) + b.pieces(k));
    assert(a.merged(b).pieces(k).take(a.pieces(k).len() as int) =~= a.pieces(k));
    assert(a.merged(b).pieces(k).skip(a.pieces(k).len() as int) =~= b.pieces(k));
}

/// Nothing is recorded before anything is sent.
pub proof fn law_nothing_is_recorded_at_first(k: TransferKey)
    ensures
        !AssetMapView::empty().tokens.contains_key(k),
        !AssetMapView::empty().assets.contains_key(k),
{
}

/// What was sent of an asset is what is recorded under it, and nothing where nothing
/// is.
pub proof fn law_what_was_sent_is_what_is_recorded(a: AssetMapView, k: TransferKey)
    ensures
        a.tokens.contains_key(k) ==> a.amount(k) == a.tokens[k],
        !a.tokens.contains_key(k) ==> a.amount(k) == 0,
        a.assets.contains_key(k) ==> a.pieces(k) == a.assets[k],
        !a.assets.contains_key(k) ==> a.pieces(k).len() == 0,
{
}

/// A record is one that an asset map can hold exactly where no sum is negative or too
/// large and no list of pieces is empty.
pub proof fn law_records_that_can_be_held(a: AssetMapView)
    ensures
        !a.valid() <==> {
            ||| exists|k: TransferKey| #[trigger]
                a.tokens.contains_key(k) && (a.tokens[k] < 0 || a.tokens[k] > i128::MAX)
            ||| exists|k: TransferKey| #[trigger] a.assets.contains_key(k) && a.assets[k].len() == 0
        },
{
}

/// Sending tokens adds exactly their number to the sum of that principal and asset,
/// and changes no other sum and no pieces.
pub proof fn law_tokens_add_up(a: AssetMapView, k: TransferKey, amount: int)
    ensures
        a.with_tokens(k, amount).tokens.contains_key(k),
        a.tokens.contains_key(k) ==> a.with_tokens(k, amount).tokens[k] == a.tokens[k] + amount,
        !a.tokens.contains_key(k) ==> a.with_tokens(k, amount).tokens[k] == amount,
        forall|l: TransferKey|
            l != k ==> (#[trigger] a.with_tokens(k, amount).tokens.contains_key(l)
                <==> a.tokens.contains_key(l)),
        forall|l: TransferKey|
            l != k && #[trigger] a.tokens.contains_key(l) ==> a.with_tokens(k, amount).tokens[l]
                == a.tokens[l],
        a.with_tokens(k, amount).assets == a.assets,
{
}

/// Sending a piece, whatever its value, puts exactly that piece behind those that the
/// principal sent of the asset before, and changes no other pieces and no sums.
pub proof fn law_piece_is_put_last(a: AssetMapView, k: TransferKey, piece: Value)
    ensures
        a.with_asset(k, piece).assets.contains_key(k),
        a.with_asset(k, piece).assets[k].last() == piece,
        a.assets.contains_key(k) ==> {
            &&& a.with_asset(k, piece).assets[k].len() == a.assets[k].len() + 1
            &&& a.with_asset(k, piece).assets[k].drop_last() == a.assets[k]
        },
        !a.assets.contains_key(k) ==> a.with_asset(k, piece).assets[k].len() == 1,
        forall|l: TransferKey|
            l != k ==> (#[trigger] a.with_asset(k, piece).assets.contains_key(l)
                <==> a.assets.contains_key(l)),
        forall|l: TransferKey|
            l != k && #[trigger] a.assets.contains_key(l) ==> a.with_asset(k, piece).assets[l]
                == a.assets[l],
        a.with_asset(k, piece).tokens == a.tokens,
{
    assert(a.with_asset(k, piece).assets[k].drop_last() =~= a.pieces(k));
}

/// A commit is refused exactly where some sum of the two records is too large.
pub proof fn law_commit_is_refused_where_a_sum_is_too_large(a: AssetMapView, b: AssetMapView)
    ensures
        !a.fits(b) <==> exists|k: TransferKey|
            {
                &&& #[trigger] b.tokens.contains_key(k)
                &&& if a.tokens.contains_key(k) {
                    a.tokens[k] + b.tokens[k] > i128::MAX
                } else {
                    b.tokens[k] > i128::MAX
                }
            },
{
}

/// A commit adds the sums of the two records, asset by asset, and records no sum
/// beside those.
pub proof fn law_commit_adds_sums(a: AssetMapView, b: AssetMapView, k: TransferKey)
    ensures
        a.merged(b).tokens.contains_key(k) <==> a.tokens.contains_key(k) || b.tokens.contains_key(
            k,
        ),
        a.tokens.contains_key(k) && b.tokens.contains_key(k) ==> a.merged(b).tokens[k]
            == a.tokens[k] + b.tokens[k],
        a.tokens.contains_key(k) && !b.tokens.contains_key(k) ==> a.merged(b).tokens[k]
            == a.tokens[k],
        !a.tokens.contains_key(k) && b.tokens.contains_key(k) ==> a.merged(b).tokens[k]
            == b.tokens[k],
{
}

/// A commit puts the pieces of the call behind those of the caller, asset by asset,
/// and records no pieces beside those.
pub proof fn law_commit_joins_pieces(a: AssetMapView, b: AssetMapView, k: TransferKey)
    ensures
        a.merged(b).assets.contains_key(k) <==> a.assets.contains_key(k) || b.assets.contains_key(
            k,
        ),
        a.assets.contains_key(k) && b.assets.contains_key(k) ==> {
            let both = a.merged(b).assets[k];
            let first = a.assets[k];
            &&& both.len() == first.len() + b.assets[k].len()
            &&& forall|i: int| 0 <= i < first.len() ==> #[trigger] both[i] == first[i]
            &&& forall|i: int|
                0 <= i < b.assets[k].len() ==> #[trigger] both[first.len() + i] == b.assets[k][i]
        },
        a.assets.contains_key(k) && !b.assets.contains_key(k) ==> a.merged(b).assets[k]
            == a.assets[k],
        !a.assets.contains_key(k) && b.assets.contains_key(k) ==> a.merged(b).assets[k]
            == b.assets[k],
{
    if a.assets.contains_key(k) && !b.assets.contains_key(k) {
        assert(a.merged(b).assets[k] =~= a.assets[k]);
    }
    if !a.assets.contains_key(k) && b.assets.contains_key(k) {
        assert(a.merged(b).assets[k] =~= b.assets[k]);
    }
}

/// A table has an entry for everything that is recorded and for nothing else. It shows
/// the pieces where there are any, and the sum of the tokens elsewhere.
pub proof fn law_table_shows_the_record(a: AssetMapView, k: TransferKey)
    ensures
        a.table().contains_key(k) <==> a.tokens.contains_key(k) || a.assets.contains_key(k),
        a.assets.contains_key(k) ==> a.table()[k] == AssetMapEntryView::Asset(a.assets[k]),
        a.tokens.contains_key(k) && !a.assets.contains_key(k) ==> a.table()[k]
            == AssetMapEntryView::Token(a.tokens[k]),
{
}

/// An entry of a table shows the very number or pieces that it holds.
pub proof fn law_entry_shows_what_it_holds(entry: AssetMapEntry)
    ensures
        entry matches AssetMapEntry::Token(n) ==> entry@ == AssetMapEntryView::Token(n as int),
        entry matches AssetMapEntry::Asset(pieces) ==> entry@ == AssetMapEntryView::Asset(pieces@),
{
}

/// A sum that is too large is answered with an arithmetic overflow and nothing else.
pub proof fn law_overflow_is_an_arithmetic_one(e: Error)
    ensures
        arithmetic_overflow(e) <==> e == Error::Runtime(RuntimeErrorType::ArithmeticOverflow),
{
}

/// Each sum of tokens adds its own line, with the sender, the sum in decimal and the
/// asset, and leaves the lines before it as they were.
pub proof fn law_tokens_add_a_line(
    lines: Seq<(String, i128, String)>,
    sender: String,
    amount: i128,
    asset: String,
)
    ensures
        spent_lines(Seq::empty()).len() == 0,
        spent_lines(lines.push((sender, amount, asset))) == spent_lines(lines) + sender@
            + " spent "@ + decimal(amount as nat) + " "@ + asset@ + "\n"@,
{
    let more = lines.push((sender, amount, asset));
    assert(more.drop_last() =~= lines);
    assert(spent_lines(more) =~= spent_lines(lines) + sender@ + " spent "@ + decimal(amount as nat)
        + " "@ + asset@ + "\n"@);
}

/// Each list of pieces adds its own line, with the sender, every piece followed by a
/// comma, and the asset, and leaves the lines before it as they were.
pub proof fn law_pieces_add_a_line(
    lines: Seq<(String, Seq<String>, String)>,
    sender: String,
    pieces: Seq<String>,
    piece: String,
    asset: String,
)
    ensures
        transfer_lines(Seq::empty()).len() == 0,
        transfer_lines(lines.push((sender, pieces, asset))) == transfer_lines(lines) + sender@
            + " transfered ["@ + piece_texts(pieces) + "] "@ + asset@ + "\n"@,
        piece_texts(Seq::empty()).len() == 0,
        piece_texts(pieces.push(piece)) == piece_texts(pieces) + piece@ + ", "@,
{
    let more = lines.push((sender, pieces, asset));
    assert(more.drop_last() =~= lines);
    assert(transfer_lines(more) =~= transfer_lines(lines) + sender@ + " transfered ["@
        + piece_texts(pieces) + "] "@ + asset@ + "\n"@);
    assert(pieces.push(piece).drop_last() =~= pieces);
}

} // verus!
