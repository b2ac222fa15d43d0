//! Which assets have been transferred from whom during a transaction.

use crate::errors::{Error, InterpreterResult, RuntimeErrorType};
use crate::keyed_map::KeyedMap;
use crate::text::{append_decimal, decimal};
use crate::transfer_table::{
    flatten, lemma_read_as, listed_key, lists, read_as, TransferKey, TransferTable,
};
use crate::types::{AssetIdentifier, PrincipalData, PrincipalView, Value};
use vstd::prelude::*;

verus! {

/// What an asset map records.
#[verifier::ext_equal]
pub struct AssetMapView {
    /// The sum of the tokens that a principal sent of an asset.
    pub tokens: Map<TransferKey, int>,
    /// What a principal sent of an asset whose pieces are told apart, in the order
    /// in which it was sent.
    pub assets: Map<TransferKey, Seq<Value>>,
}

impl AssetMapView {
    /// Nothing was sent.
    pub open spec fn empty() -> AssetMapView {
        AssetMapView { tokens: Map::empty(), assets: Map::empty() }
    }

    /// Every sum is one that an asset map can hold, and there are pieces wherever
    /// some are recorded.
    pub open spec fn valid(self) -> bool {
        &&& forall|k: TransferKey| #[trigger]
            self.tokens.contains_key(k) ==> 0 <= self.tokens[k] <= i128::MAX
        &&& forall|k: TransferKey| #[trigger]
            self.assets.contains_key(k) ==> self.assets[k].len() > 0
    }

    /// The tokens sent so far.
    pub open spec fn amount(self, k: TransferKey) -> int {
        if self.tokens.contains_key(k) {
            self.tokens[k]
        } else {
            0
        }
    }

    /// The pieces sent so far.
    pub open spec fn pieces(self, k: TransferKey) -> Seq<Value> {
        if self.assets.contains_key(k) {
            self.assets[k]
        } else {
            Seq::empty()
        }
    }

    /// The record after `amount` more tokens.
    pub open spec fn with_tokens(self, k: TransferKey, amount: int) -> AssetMapView {
        AssetMapView { tokens: self.tokens.insert(k, self.amount(k) + amount), ..self }
    }

    /// The record after one more piece.
    pub open spec fn with_asset(self, k: TransferKey, piece: Value) -> AssetMapView {
        AssetMapView { assets: self.assets.insert(k, self.pieces(k).push(piece)), ..self }
    }

    /// The record as one table. Where tokens and pieces were sent of the same asset,
    /// it shows the pieces.
    pub open spec fn table(self) -> Map<TransferKey, AssetMapEntryView> {
        Map::new(
            |k: TransferKey| self.tokens.contains_key(k) || self.assets.contains_key(k),
            |k: TransferKey|
                if self.assets.contains_key(k) {
                    AssetMapEntryView::Asset(self.assets[k])
                } else {
                    AssetMapEntryView::Token(self.tokens[k])
                },
        )
    }

    /// No sum of the two records is too large.
    pub open spec fn fits(self, other: AssetMapView) -> bool {
        forall|k: TransferKey| #[trigger]
            other.tokens.contains_key(k) ==> self.amount(k) + other.tokens[k] <= i128::MAX
    }

    /// What both record together: the sums of the tokens, and the pieces of this
    /// record followed by those of the other.
    pub open spec fn merged(self, other: AssetMapView) -> AssetMapView {
        AssetMapView {
            tokens: Map::new(
                |k: TransferKey| self.tokens.contains_key(k) || other.tokens.contains_key(k),
                |k: TransferKey| self.amount(k) + other.amount(k),
            ),
            assets: Map::new(
                |k: TransferKey| self.assets.contains_key(k) || other.assets.contains_key(k),
                |k: TransferKey| self.pieces(k) + other.pieces(k),
            ),
        }
    }
}

/// How a table shows the transfers of a principal and an asset.
#[derive(Debug, PartialEq, Eq)]
pub enum AssetMapEntry {
    Token(i128),
    Asset(Vec<Value>),
}

/// What a table entry shows.
pub enum AssetMapEntryView {
    Token(int),
    Asset(Seq<Value>),
}

impl View for AssetMapEntry {
    type V = AssetMapEntryView;

    open spec fn view(&self) -> AssetMapEntryView {
        match self {
            AssetMapEntry::Token(amount) => AssetMapEntryView::Token(*amount as int),
            AssetMapEntry::Asset(pieces) => AssetMapEntryView::Asset(pieces@),
        }
    }
}

/// The error of a sum that is too large.
pub open spec fn arithmetic_overflow(e: Error) -> bool {
    e == Error::Runtime(RuntimeErrorType::ArithmeticOverflow)
}

/// The line on tokens that a principal sent.
pub open spec fn spent_line(text: (String, i128, String)) -> Seq<char> {
    text.0@ + " spent "@ + decimal(text.1 as nat) + " "@ + text.2@ + "\n"@
}

/// The lines on tokens, one after the other.
pub open spec fn spent_lines(texts: Seq<(String, i128, String)>) -> Seq<char>
    decreases texts.len(),
{
    if texts.len() == 0 {
        Seq::empty()
    } else {
        spent_lines(texts.drop_last()) + spent_line(texts.last())
    }
}

/// Pieces, each with a comma after it.
pub open spec fn piece_texts(pieces: Seq<String>) -> Seq<char>
    decreases pieces.len(),
{
    if pieces.len() == 0 {
        Seq::empty()
    } else {
        piece_texts(pieces.drop_last()) + pieces.last()@ + ", "@
    }
}

/// The line on pieces that a principal sent.
pub open spec fn transfer_line(text: (String, Seq<String>, String)) -> Seq<char> {
    text.0@ + " transfered ["@ + piece_texts(text.1) + "] "@ + text.2@ + "\n"@
}

/// The lines on pieces, one after the other.
pub open spec fn transfer_lines(texts: Seq<(String, Seq<String>, String)>) -> Seq<char>
    decreases texts.len(),
{
    if texts.len() == 0 {
        Seq::empty()
    } else {
        transfer_lines(texts.drop_last()) + transfer_line(texts.last())
    }
}

/// The AssetMap is used to track which assets have been transfered from whom
/// during the execution of a transaction.
#[derive(Debug)]
pub struct AssetMap {
    token_map: TransferTable<i128>,
    asset_map: TransferTable<Vec<Value>>,
}

impl View for AssetMap {
    type V = AssetMapView;

    closed spec fn view(&self) -> AssetMapView {
        AssetMapView {
            tokens: self.token_map@.map_values(|n: i128| n as int),
            assets: self.asset_map@.map_values(|v: Vec<Value>| v@),
        }
    }
}

impl AssetMap {
    #[verifier::type_invariant]
    pub(crate) closed spec fn inv(self) -> bool {
        &&& self.token_map.wf()
        &&& self.asset_map.wf()
        &&& forall|k: TransferKey| #[trigger]
            self.token_map@.contains_key(k) ==> self.token_map@[k] >= 0
        &&& forall|k: TransferKey| #[trigger]
            self.asset_map@.contains_key(k) ==> self.asset_map@[k]@.len() > 0
    }

    /// The record of a map is valid.
    pub(crate) proof fn lemma_valid(self)
        requires
            self.inv(),
        ensures
            self@.valid(),
    {
    }

    pub fn new() -> (r: AssetMap)
        ensures
            r@ == AssetMapView::empty(),
            r@.valid(),
    {
        let r = AssetMap { token_map: TransferTable::new(), asset_map: TransferTable::new() };
        assert(r@ =~= AssetMapView::empty());
        r
    }

    /// The next amount for a principal and an asset, once `amount` more has been
    /// sent.
    fn get_next_amount(
        &self,
        principal: &PrincipalData,
        asset: &AssetIdentifier,
        amount: i128,
    ) -> (r: InterpreterResult<i128>)
        ensures
            match r {
                Ok(next) => next == self@.amount((principal@, asset@)) + amount,
                Err(e) => {
                    let sum = self@.amount((principal@, asset@)) + amount;
                    arithmetic_overflow(e) && (sum > i128::MAX || sum < i128::MIN)
                },
            },
    {
        proof {
            use_type_invariant(self);
        }
        let current_amount: i128 = match self.token_map.get(principal, asset) {
            Some(current) => *current,
            None => 0,
        };
        match current_amount.checked_add(amount) {
            Some(next) => Ok(next),
            None => Err(Error::Runtime(RuntimeErrorType::ArithmeticOverflow)),
        }
    }

    /// Records that the principal sent one piece of the asset.
    pub fn add_asset_transfer(
        &mut self,
        principal: &PrincipalData,
        asset: AssetIdentifier,
        transfered: Value,
    )
        ensures
            final(self)@.valid(),
            final(self)@ == old(self)@.with_asset((principal@, asset@), transfered),
    {
        proof {
            use_type_invariant(&*self);
        }
        let ghost k = (principal@, asset@);
        let mut asset_map = TransferTable::new();
        std::mem::swap(&mut self.asset_map, &mut asset_map);
        match asset_map.get_mut(principal, &asset) {
            Some(pieces) => {
                pieces.push(transfered);
            },
            None => {
                asset_map.insert(principal, asset, vec![transfered]);
            },
        }
        self.asset_map = asset_map;
        assert(self@ =~~= old(self)@.with_asset(k, transfered));
    }

    /// Records that the principal sent `amount` of the asset.
    pub fn add_token_transfer(
        &mut self,
        principal: &PrincipalData,
        asset: AssetIdentifier,
        amount: i128,
    ) -> (r: InterpreterResult<()>)
        requires
            amount >= 0,
        ensures
            final(self)@.valid(),
            match r {
                Ok(_) => {
                    &&& old(self)@.amount((principal@, asset@)) + amount <= i128::MAX
                    &&& final(self)@ == old(self)@.with_tokens((principal@, asset@), amount as int)
                },
                Err(e) => {
                    &&& arithmetic_overflow(e)
                    &&& old(self)@.amount((principal@, asset@)) + amount > i128::MAX
                    &&& *final(self) == *old(self)
                },
            },
    {
        proof {
            use_type_invariant(&*self);
        }
        let ghost k = (principal@, asset@);
        let next_amount: i128 = match self.get_next_amount(principal, &asset, amount) {
            Ok(next) => next,
            Err(e) => {
                return Err(e);
            },
        };
        let mut token_map = TransferTable::new();
        std::mem::swap(&mut self.token_map, &mut token_map);
        token_map.insert(principal, asset, next_amount);
        self.token_map = token_map;
        assert(self@ =~= old(self)@.with_tokens(k, amount as int));
        Ok(())
    }

    /// Adds any asset transfer data from `other` to this map, aborting all changes
    /// in the event of an error, leaving this map unchanged.
    pub fn commit_other(&mut self, other: AssetMap) -> (r: InterpreterResult<()>)
        ensures
            final(self)@.valid(),
            match r {
                Ok(_) => old(self)@.fits(other@) && final(self)@ == old(self)@.merged(other@),
                Err(e) => {
                    &&& arithmetic_overflow(e)
                    &&& !old(self)@.fits(other@)
                    &&& *final(self) == *old(self)
                },
            },
    {
        proof {
            use_type_invariant(&*self);
            use_type_invariant(&other);
        }
        let ghost mine = self@;
        let ghost theirs = other@;
        let AssetMap { token_map: mut other_tokens, asset_map: mut other_assets } = other;
        let ghost tokens = other_tokens@;
        let mut to_add: Vec<(PrincipalData, AssetIdentifier, i128)> = Vec::new();
        loop
            invariant
                *self == *old(self),
                self@ == mine,
                other@ == theirs,
                other_tokens.wf(),
                theirs.tokens == tokens.map_values(|n: i128| n as int),
                forall|k: TransferKey| #[trigger] tokens.contains_key(k) ==> tokens[k] >= 0,
                mine.valid(),
                pending(to_add@, mine, theirs),
                forall|k: TransferKey| #[trigger]
                    other_tokens@.contains_key(k) ==> tokens.contains_key(k) && tokens[k]
                        == other_tokens@[k] && !listed(to_add@, k),
                forall|k: TransferKey| #[trigger]
                    tokens.contains_key(k) ==> other_tokens@.contains_key(k) || listed(to_add@, k),
            ensures
                *self == *old(self),
                pending(to_add@, mine, theirs),
                forall|k: TransferKey| #[trigger]
                    tokens.contains_key(k) ==> listed(to_add@, k),
            decreases other_tokens.height(), other_tokens.last_width(),
        {
            match other_tokens.pop() {
                Some((principal, asset, amount)) => {
                    let ghost k = (principal@, asset@);
                    let ghost before = to_add@;
                    match self.get_next_amount(&principal, &asset, amount) {
                        Ok(next_amount) => {
                            to_add.push((principal, asset, next_amount));
                            proof {
                                lemma_listed_push(before, (principal, asset, next_amount));
                            }
                        },
                        Err(e) => {
                            assert(theirs.tokens.contains_key(k));
                            return Err(e);
                        },
                    }
                },
                None => {
                    break;
                },
            }
        }
        // After this point, this function will not fail.
        assert(mine.fits(theirs));

        let ghost assets = other_assets@;
        let mut asset_map = TransferTable::new();
        std::mem::swap(&mut self.asset_map, &mut asset_map);
        let ghost landing = asset_map@;
        loop
            invariant
                asset_map.wf(),
                other_assets.wf(),
                joined(asset_map@, other_assets@, landing, assets),
            ensures
                asset_map.wf(),
                other_assets@ == Map::<TransferKey, Vec<Value>>::empty(),
                joined(asset_map@, other_assets@, landing, assets),
            decreases other_assets.height(), other_assets.last_width(),
        {
            match other_assets.pop() {
                Some((principal, asset, mut transfers)) => {
                    let ghost k = (principal@, asset@);
                    let ghost before = asset_map@;
                    let ghost moved = transfers@;
                    match asset_map.get_mut(&principal, &asset) {
                        Some(pieces) => {
                            pieces.append(&mut transfers);
                        },
                        None => {
                            asset_map.insert(&principal, asset, transfers);
                        },
                    }
                    assert(asset_map@[k]@ =~= pieces_at(before, k) + moved);
                    assert forall|x: TransferKey|
                        {
                            &&& (#[trigger] asset_map@.contains_key(x)
                                || other_assets@.contains_key(x)) == (landing.contains_key(x)
                                || assets.contains_key(x))
                            &&& pieces_at(asset_map@, x) + pieces_at(other_assets@, x) == pieces_at(
                                landing,
                                x,
                            ) + pieces_at(assets, x)
                        } by {
                        if x == k {
                            assert(pieces_at(asset_map@, x) + pieces_at(other_assets@, x)
                                =~= pieces_at(before, x) + moved);
                        }
                    }
                },
                None => {
                    break;
                },
            }
        }
        self.asset_map = asset_map;

        let mut token_map = TransferTable::new();
        std::mem::swap(&mut self.token_map, &mut token_map);
        let ghost kept = token_map@;
        let ghost all = to_add@;
        while to_add.len() > 0
            invariant
                token_map.wf(),
                pending(all, mine, theirs),
                mine.valid(),
                theirs.valid(),
                to_add@.len() <= all.len(),
                forall|i: int| 0 <= i < to_add@.len() ==> to_add@[i] == #[trigger] all[i],
                forall|i: int|
                    to_add@.len() <= i < all.len() ==> {
                        &&& token_map@.contains_key(#[trigger] listed_key(all[i]))
                        &&& token_map@[listed_key(all[i])] == all[i].2
                    },
                forall|k: TransferKey| #[trigger]
                    kept.contains_key(k) && !listed(all, k) ==> token_map@.contains_key(k)
                        && token_map@[k] == kept[k],
                forall|k: TransferKey| #[trigger]
                    token_map@.contains_key(k) ==> token_map@[k] >= 0 && (kept.contains_key(k)
                        || listed(all, k)),
            decreases to_add@.len(),
        {
            let ghost last = to_add@.len() - 1;
            match to_add.pop() {
                Some((principal, asset, amount)) => {
                    assert(listed_key(all[last]) == (principal@, asset@));
                    token_map.insert(&principal, asset, amount);
                },
                None => {},
            }
        }
        self.token_map = token_map;
        Ok(())
    }

    /// The tokens that were sent, in the order in which their senders, and the assets
    /// of each sender, came first.
    pub closed spec fn token_list(&self) -> Seq<(PrincipalData, AssetIdentifier, i128)> {
        self.token_map.listing()
    }

    /// The pieces that were sent, in the order in which their senders, and the assets
    /// of each sender, came first.
    pub closed spec fn asset_list(&self) -> Seq<(PrincipalData, AssetIdentifier, Vec<Value>)> {
        self.asset_map.listing()
    }

    /// The map in words: a line for each principal and asset, first for tokens and
    /// then for pieces. The functions say how principals, assets and values are
    /// written.
    pub fn fmt<P, A, V>(&self, principal: P, asset: A, value: V) -> (r: String) where
        P: Fn(&PrincipalData) -> String,
        A: Fn(&AssetIdentifier) -> String,
        V: Fn(&Value) -> String,

        requires
            forall|p: &PrincipalData| call_requires(principal, (p,)),
            forall|a: &AssetIdentifier| call_requires(asset, (a,)),
            forall|v: &Value| call_requires(value, (v,)),
        ensures
            exists|
                spent: Seq<(String, i128, String)>,
                moved: Seq<(String, Seq<String>, String)>,
            |
                {
                    &&& r@ == "["@ + #[trigger] spent_lines(spent) + #[trigger] transfer_lines(moved)
                        + "]"@
                    &&& spent.len() == self.token_list().len()
                    &&& forall|i: int|
                        0 <= i < spent.len() ==> {
                            let entry = self.token_list()[i];
                            &&& call_ensures(principal, (&entry.0,), (#[trigger] spent[i]).0)
                            &&& spent[i].1 == entry.2
                            &&& call_ensures(asset, (&entry.1,), spent[i].2)
                        }
                    &&& moved.len() == self.asset_list().len()
                    &&& forall|i: int|
                        0 <= i < moved.len() ==> {
                            let entry = self.asset_list()[i];
                            &&& call_ensures(principal, (&entry.0,), (#[trigger] moved[i]).0)
                            &&& moved[i].1.len() == entry.2@.len()
                            &&& forall|j: int|
                                0 <= j < entry.2@.len() ==> call_ensures(
                                    value,
                                    (&entry.2@[j],),
                                    #[trigger] moved[i].1[j],
                                )
                            &&& call_ensures(asset, (&entry.1,), moved[i].2)
                        }
                },
            lists(read_as(self.token_list(), |n: i128| n as int), self@.tokens),
            lists(read_as(self.asset_list(), |v: Vec<Value>| v@), self@.assets),
    {
        proof {
            use_type_invariant(self);
        }
        let mut text = "[".to_string();
        let ghost mut spent: Seq<(String, i128, String)> = Seq::empty();
        let ghost mut moved: Seq<(String, Seq<String>, String)> = Seq::empty();

        let tokens = self.token_map.list();
        proof {
            lemma_read_as(self.token_list(), self.token_map@, |n: i128| n as int);
            assert forall|n: int| 0 <= n < tokens@.len() implies (
            #[trigger] self.token_list()[n]).2 >= 0 by {
                assert(self.token_map@.contains_key(listed_key(self.token_list()[n])));
            }
        }
        let mut i: usize = 0;
        while i < tokens.len()
            invariant
                i <= tokens@.len(),
                tokens@.len() == self.token_list().len(),
                forall|n: int|
                    0 <= n < tokens@.len() ==> (*tokens@[n].0, *tokens@[n].1, *tokens@[n].2)
                        == #[trigger] self.token_list()[n],
                forall|n: int| 0 <= n < tokens@.len() ==> (#[trigger] self.token_list()[n]).2 >= 0,
                forall|p: &PrincipalData| call_requires(principal, (p,)),
                forall|a: &AssetIdentifier| call_requires(asset, (a,)),
                text@ == "["@ + spent_lines(spent),
                spent.len() == i,
                forall|n: int|
                    0 <= n < i ==> {
                        let entry = self.token_list()[n];
                        &&& call_ensures(principal, (&entry.0,), (#[trigger] spent[n]).0)
                        &&& spent[n].1 == entry.2
                        &&& call_ensures(asset, (&entry.1,), spent[n].2)
                    },
            decreases tokens@.len() - i,
        {
            let (who, what, amount) = tokens[i];
            assert(self.token_list()[i as int].2 >= 0);
            let who_text = principal(who);
            let what_text = asset(what);
            text.append(who_text.as_str());
            text.append(" spent ");
            append_decimal(&mut text, *amount as u128);
            text.append(" ");
            text.append(what_text.as_str());
            text.append("\n");
            proof {
                let before = spent;
                spent = before.push((who_text, *amount, what_text));
                assert(spent.drop_last() =~= before);
                assert(text@ =~= "["@ + (spent_lines(before) + spent_line(spent.last())));
            }
            i += 1;
        }

        let assets = self.asset_map.list();
        proof {
            lemma_read_as(self.asset_list(), self.asset_map@, |v: Vec<Value>| v@);
        }
        let mut i: usize = 0;
        while i < assets.len()
            invariant
                i <= assets@.len(),
                assets@.len() == self.asset_list().len(),
                forall|n: int|
                    0 <= n < assets@.len() ==> (*assets@[n].0, *assets@[n].1, *assets@[n].2)
                        == #[trigger] self.asset_list()[n],
                forall|p: &PrincipalData| call_requires(principal, (p,)),
                forall|a: &AssetIdentifier| call_requires(asset, (a,)),
                forall|v: &Value| call_requires(value, (v,)),
                text@ == "["@ + spent_lines(spent) + transfer_lines(moved),
                moved.len() == i,
                forall|n: int|
                    0 <= n < i ==> {
                        let entry = self.asset_list()[n];
                        &&& call_ensures(principal, (&entry.0,), (#[trigger] moved[n]).0)
                        &&& moved[n].1.len() == entry.2@.len()
                        &&& forall|j: int|
                            0 <= j < entry.2@.len() ==> call_ensures(
                                value,
                                (&entry.2@[j],),
                                #[trigger] moved[n].1[j],
                            )
                        &&& call_ensures(asset, (&entry.1,), moved[n].2)
                    },
            decreases assets@.len() - i,
        {
            let (who, what, transfers) = assets[i];
            let ghost start = text@;
            let who_text = principal(who);
            text.append(who_text.as_str());
            text.append(" transfered [");
            let ghost opened = text@;
            let ghost mut pieces: Seq<String> = Seq::empty();
            let mut j: usize = 0;
            while j < transfers.len()
                invariant
                    j <= transfers@.len(),
                    forall|v: &Value| call_requires(value, (v,)),
                    text@ == opened + piece_texts(pieces),
                    pieces.len() == j,
                    forall|n: int|
                        0 <= n < j ==> call_ensures(
                            value,
                            (&transfers@[n],),
                            #[trigger] pieces[n],
                        ),
                decreases transfers@.len() - j,
            {
                let piece_text = value(&transfers[j]);
                text.append(piece_text.as_str());
                text.append(", ");
                proof {
                    let before = pieces;
                    pieces = before.push(piece_text);
                    assert(pieces.drop_last() =~= before);
                    assert(text@ =~= opened + (piece_texts(before) + piece_text@ + ", "@));
                }
                j += 1;
            }
            text.append("] ");
            let what_text = asset(what);
            text.append(what_text.as_str());
            text.append("\n");
            proof {
                let before = moved;
                moved = before.push((who_text, pieces, what_text));
                assert(moved.drop_last() =~= before);
                assert(text@ =~= start + transfer_line(moved.last()));
                assert(text@ =~= "["@ + spent_lines(spent) + (transfer_lines(before)
                    + transfer_line(moved.last())));
            }
            i += 1;
        }
        text.append("]");
        text
    }

    /// Every principal that sent something, with what it sent of each asset.
    pub fn to_table(self) -> (r: KeyedMap<PrincipalData, KeyedMap<AssetIdentifier, AssetMapEntry>>)
        ensures
            r.wf(),
            forall|p: PrincipalView| #[trigger]
                r@.contains_key(p) ==> r@[p].wf() && r@[p].entries().len() > 0,
            flatten(r@).map_values(|e: AssetMapEntry| e@) == self@.table(),
    {
        proof {
            use_type_invariant(&self);
        }
        let ghost record = self@;
        let AssetMap { mut token_map, mut asset_map } = self;
        let ghost tokens = token_map@;
        let ghost assets = asset_map@;
        let mut table: TransferTable<AssetMapEntry> = TransferTable::new();
        loop
            invariant
                token_map.wf(),
                table.wf(),
                forall|k: TransferKey| #[trigger]
                    tokens.contains_key(k) <==> token_map@.contains_key(k) || table@.contains_key(
                        k,
                    ),
                forall|k: TransferKey| #[trigger]
                    token_map@.contains_key(k) ==> token_map@[k] == tokens[k],
                forall|k: TransferKey| #[trigger]
                    table@.contains_key(k) ==> table@[k] == AssetMapEntry::Token(tokens[k]),
            ensures
                table.wf(),
                forall|k: TransferKey| #[trigger]
                    tokens.contains_key(k) <==> table@.contains_key(k),
                forall|k: TransferKey| #[trigger]
                    table@.contains_key(k) ==> table@[k] == AssetMapEntry::Token(tokens[k]),
            decreases token_map.height(), token_map.last_width(),
        {
            match token_map.pop() {
                Some((principal, asset, amount)) => {
                    table.insert(&principal, asset, AssetMapEntry::Token(amount));
                },
                None => {
                    break;
                },
            }
        }
        loop
            invariant
                asset_map.wf(),
                table.wf(),
                forall|k: TransferKey| #[trigger]
                    asset_map@.contains_key(k) ==> assets.contains_key(k) && asset_map@[k]
                        == assets[k],
                forall|k: TransferKey| #[trigger]
                    table@.contains_key(k) <==> tokens.contains_key(k) || (assets.contains_key(k)
                        && !asset_map@.contains_key(k)),
                forall|k: TransferKey| #[trigger]
                    table@.contains_key(k) ==> table@[k] == if assets.contains_key(k)
                        && !asset_map@.contains_key(k) {
                        AssetMapEntry::Asset(assets[k])
                    } else {
                        AssetMapEntry::Token(tokens[k])
                    },
            ensures
                table.wf(),
                forall|k: TransferKey| #[trigger]
                    table@.contains_key(k) <==> tokens.contains_key(k) || assets.contains_key(k),
                forall|k: TransferKey| #[trigger]
                    table@.contains_key(k) ==> table@[k] == if assets.contains_key(k) {
                        AssetMapEntry::Asset(assets[k])
                    } else {
                        AssetMapEntry::Token(tokens[k])
                    },
            decreases asset_map.height(), asset_map.last_width(),
        {
            match asset_map.pop() {
                Some((principal, asset, transfers)) => {
                    table.insert(&principal, asset, AssetMapEntry::Asset(transfers));
                },
                None => {
                    break;
                },
            }
        }
        assert(table@.map_values(|e: AssetMapEntry| e@) =~= record.table());
        table.into_rows()
    }
}

/// The list has an amount for `k`.
spec fn listed(list: Seq<(PrincipalData, AssetIdentifier, i128)>, k: TransferKey) -> bool {
    exists|i: int| 0 <= i < list.len() && #[trigger] listed_key(list[i]) == k
}

/// The list holds sums of the two records, none of them twice.
spec fn pending(
    list: Seq<(PrincipalData, AssetIdentifier, i128)>,
    mine: AssetMapView,
    theirs: AssetMapView,
) -> bool {
    &&& forall|i: int|
        0 <= i < list.len() ==> theirs.tokens.contains_key(#[trigger] listed_key(list[i]))
            && list[i].2 == mine.amount(listed_key(list[i])) + theirs.tokens[listed_key(list[i])]
    &&& forall|i: int, j: int|
        0 <= i < j < list.len() ==> #[trigger] listed_key(list[i]) != #[trigger] listed_key(list[j])
}

proof fn lemma_listed_push(
    list: Seq<(PrincipalData, AssetIdentifier, i128)>,
    entry: (PrincipalData, AssetIdentifier, i128),
)
    ensures
        forall|k: TransferKey| #[trigger]
            listed(list.push(entry), k) <==> listed(list, k) || k == listed_key(entry),
{
    let longer = list.push(entry);
    assert forall|k: TransferKey| #[trigger]
        listed(longer, k) <==> listed(list, k) || k == listed_key(entry) by {
        if listed(list, k) {
            let i = choose|i: int| 0 <= i < list.len() && #[trigger] listed_key(list[i]) == k;
            assert(listed_key(longer[i]) == k);
        }
        if k == listed_key(entry) {
            assert(listed_key(longer[list.len() as int]) == k);
        }
        if listed(longer, k) {
            let i = choose|i: int| 0 <= i < longer.len() && #[trigger] listed_key(longer[i]) == k;
            if i < list.len() {
                assert(listed_key(list[i]) == k);
            }
        }
    }
}

spec fn pieces_at(m: Map<TransferKey, Vec<Value>>, k: TransferKey) -> Seq<Value> {
    if m.contains_key(k) {
        m[k]@
    } else {
        Seq::empty()
    }
}

/// The first pair of maps holds together what the second pair does.
spec fn joined(
    a: Map<TransferKey, Vec<Value>>,
    b: Map<TransferKey, Vec<Value>>,
    c: Map<TransferKey, Vec<Value>>,
    d: Map<TransferKey, Vec<Value>>,
) -> bool {
    forall|k: TransferKey|
        {
            &&& (#[trigger] a.contains_key(k) || b.contains_key(k)) == (c.contains_key(k)
                || d.contains_key(k))
            &&& pieces_at(a, k) + pieces_at(b, k) == pieces_at(c, k) + pieces_at(d, k)
        }
}

} // verus!
