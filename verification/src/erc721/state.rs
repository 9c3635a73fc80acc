//! What the registry holds: its minter and, for each token, the owner and
//! the account approved to move it.

use vstd::prelude::*;
use crate::types::Addr;

verus! {

/// A token identifier.
pub type TokenId = u32;

/// One token: its identifier, the account that owns it, and the account
/// that the owner has approved to move it, if any.
#[derive(Debug, PartialEq, Eq)]
pub struct Token {
    pub id: TokenId,
    pub owner: Addr,
    pub approved: Option<Addr>,
}

impl Clone for Token {
    fn clone(&self) -> (r: Self)
        ensures
            r.id == self.id,
            r.owner@ == self.owner@,
            r.approved.deep_view() == self.approved.deep_view(),
    {
        Token {
            id: self.id,
            owner: self.owner.clone(),
            approved: match &self.approved {
                Some(spender) => Some(spender.clone()),
                None => None,
            },
        }
    }
}

/// The mathematical value of an [`Erc721`].
pub struct RegistryView {
    /// The account that may mint.
    pub minter: Option<Seq<char>>,
    /// The owner of each token that exists.
    pub token_owner: Map<TokenId, Seq<char>>,
    /// The approved account of each token that has one.
    pub token_approvals: Map<TokenId, Seq<char>>,
}

/// The tokens that `owner` owns according to `token_owner`.
pub open spec fn owned_by(token_owner: Map<TokenId, Seq<char>>, owner: Seq<char>) -> Set<TokenId> {
    Set::new(|id: TokenId| token_owner.dom().contains(id) && token_owner[id] == owner)
}

impl RegistryView {
    /// How many tokens `owner` owns.
    pub open spec fn balance(self, owner: Seq<char>) -> nat {
        owned_by(self.token_owner, owner).len()
    }

    /// What holds of every registry at every moment: finitely many tokens,
    /// approvals only for tokens that exist, and no account with more tokens
    /// than 32 bits count.
    pub open spec fn wf(self) -> bool {
        &&& self.token_owner.dom().finite()
        &&& self.token_approvals.dom().subset_of(self.token_owner.dom())
        &&& forall|owner: Seq<char>| #[trigger] self.balance(owner) <= u32::MAX
    }
}

/// Whether no identifier occurs twice among `tokens`.
pub open spec fn distinct_ids(tokens: Seq<Token>) -> bool {
    forall|i: int, j: int|
        0 <= i < tokens.len() && 0 <= j < tokens.len() && (#[trigger] tokens[i]).id == (
        #[trigger] tokens[j]).id ==> i == j
}

/// Whether `tokens` holds a token `id`.
pub open spec fn has_token(tokens: Seq<Token>, id: TokenId) -> bool {
    exists|i: int| 0 <= i < tokens.len() && (#[trigger] tokens[i]).id == id
}

/// The place of token `id` among `tokens`.
pub open spec fn slot_of(tokens: Seq<Token>, id: TokenId) -> int {
    choose|i: int| 0 <= i < tokens.len() && (#[trigger] tokens[i]).id == id
}

/// The owner of each of `tokens`.
pub open spec fn owners_of(tokens: Seq<Token>) -> Map<TokenId, Seq<char>> {
    Map::new(|id: TokenId| has_token(tokens, id), |id: TokenId| tokens[slot_of(tokens, id)].owner@)
}

/// The approved account of each of `tokens` that has one.
pub open spec fn approvals_of(tokens: Seq<Token>) -> Map<TokenId, Seq<char>> {
    Map::new(
        |id: TokenId| has_token(tokens, id) && tokens[slot_of(tokens, id)].approved is Some,
        |id: TokenId| tokens[slot_of(tokens, id)].approved->0@,
    )
}

/// The registry that records `tokens` and lets `minter` mint.
pub open spec fn registry_of(minter: Option<Seq<char>>, tokens: Seq<Token>) -> RegistryView {
    RegistryView {
        minter,
        token_owner: owners_of(tokens),
        token_approvals: approvals_of(tokens),
    }
}

/// The tokens of one owner are finitely many where all tokens are.
pub proof fn lemma_owned_finite(token_owner: Map<TokenId, Seq<char>>, owner: Seq<char>)
    requires
        token_owner.dom().finite(),
    ensures
        owned_by(token_owner, owner).finite(),
        owned_by(token_owner, owner).len() <= token_owner.dom().len(),
{
    vstd::set_lib::lemma_len_subset(owned_by(token_owner, owner), token_owner.dom());
}

/// A token that is new to the registry raises the balance of the account
/// that gets it by one, and no other balance.
pub proof fn lemma_balance_after_mint(
    token_owner: Map<TokenId, Seq<char>>,
    id: TokenId,
    to: Seq<char>,
    owner: Seq<char>,
)
    requires
        token_owner.dom().finite(),
        !token_owner.dom().contains(id),
    ensures
        owned_by(token_owner.insert(id, to), owner).len() == owned_by(token_owner, owner).len() + (
        if owner == to {
            1nat
        } else {
            0nat
        }),
{
    lemma_owned_finite(token_owner, owner);
    if owner == to {
        assert(owned_by(token_owner.insert(id, to), owner) =~= owned_by(token_owner, owner).insert(
            id,
        ));
    } else {
        assert(owned_by(token_owner.insert(id, to), owner) =~= owned_by(token_owner, owner));
    }
}

/// A token that changes hands lowers the balance of the account that gives
/// it by one and raises that of the account that gets it by one; a token
/// that goes to its own owner changes no balance.
pub proof fn lemma_balance_after_transfer(
    token_owner: Map<TokenId, Seq<char>>,
    id: TokenId,
    to: Seq<char>,
    owner: Seq<char>,
)
    requires
        token_owner.dom().finite(),
        token_owner.dom().contains(id),
    ensures
        owned_by(token_owner.insert(id, to), owner).len() + (if owner == token_owner[id] {
            1nat
        } else {
            0nat
        }) == owned_by(token_owner, owner).len() + (if owner == to {
            1nat
        } else {
            0nat
        }),
{
    lemma_owned_finite(token_owner, owner);
    let from = token_owner[id];
    let before = owned_by(token_owner, owner);
    let after = owned_by(token_owner.insert(id, to), owner);
    if from == to {
        assert(after =~= before);
    } else if owner == to {
        assert(after =~= before.insert(id));
    } else if owner == from {
        assert(after =~= before.remove(id));
    } else {
        assert(after =~= before);
    }
}

/// The registry.
#[derive(Debug)]
pub struct Erc721 {
    pub(crate) minter: Option<Addr>,
    pub(crate) tokens: Vec<Token>,
}

impl View for Erc721 {
    type V = RegistryView;

    open(crate) spec fn view(&self) -> RegistryView {
        registry_of(self.minter.deep_view(), self.tokens@)
    }
}

/// The identifiers of `tokens` are finitely many.
pub proof fn lemma_owners_finite(tokens: Seq<Token>)
    ensures
        owners_of(tokens).dom().finite(),
        owners_of(tokens).dom().len() <= tokens.len(),
    decreases tokens.len(),
{
    if tokens.len() == 0 {
        assert(owners_of(tokens).dom() =~= Set::<TokenId>::empty());
    } else {
        let rest = tokens.drop_last();
        lemma_owners_finite(rest);
        assert forall|id: TokenId| #[trigger]
            owners_of(tokens).dom().contains(id) <==> owners_of(rest).dom().insert(
                tokens.last().id,
            ).contains(id) by {
            if has_token(tokens, id) {
                let i = slot_of(tokens, id);
                if i < rest.len() {
                    assert(rest[i].id == id);
                }
            }
            if has_token(rest, id) {
                let i = slot_of(rest, id);
                assert(tokens[i].id == id);
            }
            if id == tokens.last().id {
                assert(tokens[tokens.len() - 1].id == id);
            }
        }
        assert(owners_of(tokens).dom() =~= owners_of(rest).dom().insert(tokens.last().id));
    }
}

/// Adding a token with a new identifier records its owner, and its approved
/// account if it has one, and leaves every other token as it is.
pub proof fn lemma_push_token(tokens: Seq<Token>, token: Token)
    requires
        distinct_ids(tokens),
        !has_token(tokens, token.id),
    ensures
        distinct_ids(tokens.push(token)),
        owners_of(tokens.push(token)) == owners_of(tokens).insert(token.id, token.owner@),
        token.approved is None ==> approvals_of(tokens.push(token)) == approvals_of(tokens),
{
    let more = tokens.push(token);
    assert(distinct_ids(more)) by {
        assert forall|i: int, j: int|
            0 <= i < more.len() && 0 <= j < more.len() && (#[trigger] more[i]).id == (
            #[trigger] more[j]).id implies i == j by {
            if i < tokens.len() && j < tokens.len() {
                assert(tokens[i].id == tokens[j].id);
            } else if i < tokens.len() {
                assert(tokens[i].id == token.id);
            } else if j < tokens.len() {
                assert(tokens[j].id == token.id);
            }
        }
    }
    assert forall|id: TokenId| has_token(more, id) <==> (has_token(tokens, id) || id
        == token.id) by {
        if has_token(tokens, id) {
            let i = slot_of(tokens, id);
            assert(more[i].id == id);
        }
        if id == token.id {
            assert(more[tokens.len() as int].id == id);
        }
        if has_token(more, id) && id != token.id {
            let i = slot_of(more, id);
            assert(tokens[i].id == id);
        }
    }
    assert forall|id: TokenId| has_token(tokens, id) implies more[slot_of(more, id)]
        == tokens[slot_of(tokens, id)] by {
        let i = slot_of(tokens, id);
        let j = slot_of(more, id);
        assert(more[i].id == id);
        assert(more[j].id == more[i].id);
    }
    assert(more[slot_of(more, token.id)] == token) by {
        assert(more[tokens.len() as int].id == token.id);
    }
    assert(owners_of(more) =~= owners_of(tokens).insert(token.id, token.owner@));
    if token.approved is None {
        assert(approvals_of(more) =~= approvals_of(tokens));
    }
}

/// Replacing the token in place `i` by one of the same identifier records
/// the new owner and the new approval, and leaves every other token as it
/// is.
pub proof fn lemma_replace_token(tokens: Seq<Token>, i: int, token: Token)
    requires
        distinct_ids(tokens),
        0 <= i < tokens.len(),
        tokens[i].id == token.id,
    ensures
        distinct_ids(tokens.update(i, token)),
        owners_of(tokens.update(i, token)) == owners_of(tokens).insert(token.id, token.owner@),
        approvals_of(tokens.update(i, token)) == (match token.approved {
            Some(spender) => approvals_of(tokens).insert(token.id, spender@),
            None => approvals_of(tokens).remove(token.id),
        }),
{
    let next = tokens.update(i, token);
    assert forall|j: int| 0 <= j < tokens.len() implies (#[trigger] next[j]).id
        == tokens[j].id by {}
    assert(distinct_ids(next)) by {
        assert forall|a: int, b: int|
            0 <= a < next.len() && 0 <= b < next.len() && (#[trigger] next[a]).id == (
            #[trigger] next[b]).id implies a == b by {
            assert(tokens[a].id == tokens[b].id);
        }
    }
    assert forall|id: TokenId| has_token(next, id) <==> has_token(tokens, id) by {
        if has_token(tokens, id) {
            let j = slot_of(tokens, id);
            assert(next[j].id == id);
        }
        if has_token(next, id) {
            let j = slot_of(next, id);
            assert(tokens[j].id == id);
        }
    }
    assert forall|id: TokenId| has_token(tokens, id) implies slot_of(next, id) == slot_of(
        tokens,
        id,
    ) by {
        let a = slot_of(tokens, id);
        let b = slot_of(next, id);
        assert(next[a].id == id);
        assert(tokens[b].id == tokens[a].id);
    }
    assert(has_token(tokens, token.id)) by {
        assert(tokens[i].id == token.id);
    }
    assert(slot_of(tokens, token.id) == i) by {
        assert(tokens[slot_of(tokens, token.id)].id == tokens[i].id);
    }
    assert(owners_of(next) =~= owners_of(tokens).insert(token.id, token.owner@));
    match token.approved {
        Some(spender) => {
            assert(approvals_of(next) =~= approvals_of(tokens).insert(token.id, spender@));
        },
        None => {
            assert(approvals_of(next) =~= approvals_of(tokens).remove(token.id));
        },
    }
}

impl Erc721 {
    #[verifier::type_invariant]
    pub(crate) open spec fn inv(&self) -> bool {
        &&& distinct_ids(self.tokens@)
        &&& forall|owner: Seq<char>| #[trigger]
            owned_by(owners_of(self.tokens@), owner).len() <= u32::MAX
    }

    /// A registry that meets its invariant is well-formed.
    pub(crate) proof fn lemma_wf(&self)
        requires
            self.inv(),
        ensures
            self@.wf(),
    {
        lemma_owners_finite(self.tokens@);
        assert(self@.token_approvals.dom().subset_of(self@.token_owner.dom()));
    }

    /// Puts a registry together again from what was kept of it. Tokens that
    /// share an identifier, or more tokens than 32 bits count, give nothing.
    pub fn restore(minter: Option<Addr>, tokens: Vec<Token>) -> (r: Option<Erc721>)
        ensures
            r is Some <==> distinct_ids(tokens@) && tokens@.len() <= u32::MAX,
            r matches Some(registry) ==> registry@ == registry_of(minter.deep_view(), tokens@)
                && registry@.wf(),
    {
        if tokens.len() > u32::MAX as usize {
            return None;
        }
        let mut i: usize = 0;
        while i < tokens.len()
            invariant
                i <= tokens.len(),
                forall|a: int, b: int|
                    0 <= a < i && 0 <= b < a ==> (#[trigger] tokens@[a]).id != (
                    #[trigger] tokens@[b]).id,
            decreases tokens.len() - i,
        {
            let mut j: usize = 0;
            while j < i
                invariant
                    j <= i,
                    i < tokens.len(),
                    forall|b: int|
                        0 <= b < j ==> tokens@[i as int].id != (#[trigger] tokens@[b]).id,
                decreases i - j,
            {
                if tokens[i].id == tokens[j].id {
                    return None;
                }
                j += 1;
            }
            i += 1;
        }
        proof {
            assert(distinct_ids(tokens@)) by {
                assert forall|a: int, b: int|
                    0 <= a < tokens@.len() && 0 <= b < tokens@.len() && (#[trigger] tokens@[a]).id
                        == (#[trigger] tokens@[b]).id implies a == b by {
                    if a < b {
                        assert(tokens@[b].id != tokens@[a].id);
                    }
                    if b < a {
                        assert(tokens@[a].id != tokens@[b].id);
                    }
                }
            }
            lemma_owners_finite(tokens@);
            assert forall|owner: Seq<char>| #[trigger]
                owned_by(owners_of(tokens@), owner).len() <= u32::MAX by {
                lemma_owned_finite(owners_of(tokens@), owner);
            }
        }
        let registry = Erc721 { minter, tokens };
        proof {
            registry.lemma_wf();
        }
        Some(registry)
    }

    /// The tokens of the registry, in the order in which they were minted.
    pub fn tokens(&self) -> (r: &Vec<Token>)
        ensures
            distinct_ids(r@),
            self@ == registry_of(self@.minter, r@),
            self@.wf(),
    {
        proof {
            use_type_invariant(self);
            self.lemma_wf();
        }
        &self.tokens
    }

    /// Names the account that may mint from now on, or nobody.
    pub fn set_minter(&mut self, minter: Option<Addr>)
        ensures
            final(self)@.wf(),
            final(self)@ == (RegistryView { minter: minter.deep_view(), ..old(self)@ }),
    {
        proof {
            use_type_invariant(&*self);
        }
        self.minter = minter;
        proof {
            use_type_invariant(&*self);
            self.lemma_wf();
        }
    }

    /// The place of token `id`, if the registry holds it.
    pub(crate) fn find(&self, id: TokenId) -> (r: Option<usize>)
        ensures
            match r {
                Some(i) => i < self.tokens@.len() && self.tokens@[i as int].id == id && slot_of(
                    self.tokens@,
                    id,
                ) == i && has_token(self.tokens@, id),
                None => !has_token(self.tokens@, id),
            },
    {
        proof {
            use_type_invariant(self);
        }
        let mut i: usize = 0;
        while i < self.tokens.len()
            invariant
                i <= self.tokens@.len(),
                distinct_ids(self.tokens@),
                forall|j: int| 0 <= j < i ==> (#[trigger] self.tokens@[j]).id != id,
            decreases self.tokens@.len() - i,
        {
            if self.tokens[i].id == id {
                proof {
                    assert(self.tokens@[i as int].id == id);
                    assert(self.tokens@[slot_of(self.tokens@, id)].id == self.tokens@[i as int].id);
                }
                return Some(i);
            }
            i += 1;
        }
        None
    }

    /// How many tokens `owner` owns.
    pub(crate) fn count_of(&self, owner: &Addr) -> (r: u32)
        ensures
            r == self@.balance(owner@),
    {
        proof {
            use_type_invariant(self);
            lemma_owners_finite(self.tokens@);
            lemma_owned_finite(owners_of(self.tokens@), owner@);
        }
        let ghost all = owned_by(owners_of(self.tokens@), owner@);
        let ghost mut seen: Set<TokenId> = Set::empty();
        let mut count: u32 = 0;
        let mut i: usize = 0;
        while i < self.tokens.len()
            invariant
                i <= self.tokens@.len(),
                distinct_ids(self.tokens@),
                all == owned_by(owners_of(self.tokens@), owner@),
                all.finite(),
                all.len() <= u32::MAX,
                seen.finite(),
                seen.subset_of(all),
                count == seen.len(),
                forall|id: TokenId|
                    seen.contains(id) <==> exists|j: int|
                        0 <= j < i && (#[trigger] self.tokens@[j]).id == id
                            && self.tokens@[j].owner@ == owner@,
            decreases self.tokens@.len() - i,
        {
            if self.tokens[i].owner == *owner {
                proof {
                    let id = self.tokens@[i as int].id;
                    assert(has_token(self.tokens@, id));
                    assert(self.tokens@[slot_of(self.tokens@, id)].id == self.tokens@[i as int].id);
                    assert(all.contains(id));
                    assert(!seen.contains(id)) by {
                        if seen.contains(id) {
                            let j = choose|j: int|
                                0 <= j < i && (#[trigger] self.tokens@[j]).id == id
                                    && self.tokens@[j].owner@ == owner@;
                            assert(self.tokens@[j].id == self.tokens@[i as int].id);
                        }
                    }
                    let more = seen.insert(id);
                    assert(more.subset_of(all));
                    vstd::set_lib::lemma_len_subset(more, all);
                    assert forall|t: TokenId| more.contains(t) <==> exists|j: int|
                        0 <= j < i + 1 && (#[trigger] self.tokens@[j]).id == t
                            && self.tokens@[j].owner@ == owner@ by {
                        if more.contains(t) {
                            if t == id {
                                assert(self.tokens@[i as int].id == t);
                            } else {
                                let j = choose|j: int|
                                    0 <= j < i && (#[trigger] self.tokens@[j]).id == t
                                        && self.tokens@[j].owner@ == owner@;
                                assert(self.tokens@[j].id == t);
                            }
                        }
                    }
                    seen = more;
                }
                count += 1;
            }
            i += 1;
        }
        proof {
            assert forall|id: TokenId| all.contains(id) implies seen.contains(id) by {
                let j = slot_of(self.tokens@, id);
                assert(self.tokens@[j].id == id);
            }
            assert(seen =~= all);
        }
        count
    }
}

impl Clone for Erc721 {
    fn clone(&self) -> (r: Self)
        ensures
            r@ == self@,
    {
        proof {
            use_type_invariant(self);
        }
        let mut tokens: Vec<Token> = Vec::new();
        let mut i: usize = 0;
        while i < self.tokens.len()
            invariant
                i <= self.tokens@.len(),
                tokens@.len() == i,
                forall|j: int|
                    0 <= j < i ==> {
                        &&& (#[trigger] tokens@[j]).id == self.tokens@[j].id
                        &&& tokens@[j].owner@ == self.tokens@[j].owner@
                        &&& tokens@[j].approved.deep_view() == self.tokens@[j].approved.deep_view()
                    },
            decreases self.tokens@.len() - i,
        {
            tokens.push(self.tokens[i].clone());
            i += 1;
        }
        let minter = match &self.minter {
            Some(minter) => Some(minter.clone()),
            None => None,
        };
        proof {
            lemma_same_tokens(self.tokens@, tokens@);
        }
        Erc721 { minter, tokens }
    }
}

/// Tokens that agree place by place in identifier, owner and approval record
/// the same owners and the same approvals.
pub proof fn lemma_same_tokens(a: Seq<Token>, b: Seq<Token>)
    requires
        a.len() == b.len(),
        forall|j: int|
            0 <= j < a.len() ==> {
                &&& (#[trigger] b[j]).id == a[j].id
                &&& b[j].owner@ == a[j].owner@
                &&& b[j].approved.deep_view() == a[j].approved.deep_view()
            },
        distinct_ids(a),
    ensures
        distinct_ids(b),
        owners_of(b) == owners_of(a),
        approvals_of(b) == approvals_of(a),
{
    assert(distinct_ids(b)) by {
        assert forall|i: int, j: int|
            0 <= i < b.len() && 0 <= j < b.len() && (#[trigger] b[i]).id == (
            #[trigger] b[j]).id implies i == j by {
            assert(a[i].id == a[j].id);
        }
    }
    assert forall|id: TokenId| has_token(a, id) <==> has_token(b, id) by {
        if has_token(a, id) {
            let j = slot_of(a, id);
            assert(b[j].id == id);
        }
        if has_token(b, id) {
            let j = slot_of(b, id);
            assert(a[j].id == id);
        }
    }
    assert forall|id: TokenId| has_token(a, id) implies slot_of(a, id) == slot_of(b, id) by {
        let i = slot_of(a, id);
        let j = slot_of(b, id);
        assert(b[i].id == id);
        assert(b[j].id == b[i].id);
    }
    assert(owners_of(b) =~= owners_of(a));
    assert(approvals_of(b) =~= approvals_of(a));
}

} // verus!
