use vstd::prelude::*;
use vstd::string::*;
use crate::decimal::{decimal, push_decimal};
use crate::error::ContractError;
use crate::ledger::{Collection, CollectionView};
use crate::types::{BatchStoreMsg, Config, Metadata, StoreConf, StoreConfMsg, TokenData, TokenInfo, Trait};

verus! {

broadcast use vstd::std_specs::hash::group_hash_axioms;

/// Why `sender` may not pre-allocate items now, if it may not: only the
/// administrator may, not while frozen, and not once the inventory total has
/// reached the supply cap.
pub open spec fn store_refusal(s: CollectionView, sender: Seq<char>) -> Option<ContractError> {
    if sender != s.minter@ {
        Some(ContractError::Unauthorized)
    } else if s.config.frozen {
        Some(ContractError::ContractFrozen)
    } else if s.config.token_total >= s.config.token_supply {
        Some(ContractError::MaxTokenSupply)
    } else {
        None
    }
}

/// Whether id `id` holds an item or the tombstone of a burnt one.
pub open spec fn occupied(s: CollectionView, id: u128) -> bool {
    s.tokens.contains_key(id) || s.burned.contains_key(id)
}

/// Whether the id `first + i` is occupied.
pub open spec fn occupied_from(s: CollectionView, first: u128, i: int) -> bool {
    occupied(s, (first + i) as u128)
}

/// Whether `first + j` is the first occupied id of the `n` ids from `first`.
pub open spec fn taken_at(s: CollectionView, first: u128, n: nat, j: int) -> bool {
    &&& 0 <= j < n
    &&& occupied_from(s, first, j)
    &&& forall|i: int| 0 <= i < j ==> !#[trigger] occupied_from(s, first, i)
}

/// Whether one of the `n` ids from `first` is occupied.
pub open spec fn range_taken(s: CollectionView, first: u128, n: nat) -> bool {
    exists|j: int| taken_at(s, first, n, j)
}

/// The item that `data` pre-allocates for `owner`.
pub open spec fn stored_token(data: TokenData, owner: String) -> TokenInfo {
    TokenInfo { owner, token_uri: data.token_uri, extension: data.extension }
}

/// Whether id `k` is `first + i` for some `lo <= i < hi`.
pub open spec fn in_range(k: u128, first: u128, lo: int, hi: int) -> bool {
    lo <= k - first < hi
}

/// `tokens` with the items of `batch` from position `lo` on stored at
/// consecutive ids from `first`, owned by `owner`.
pub open spec fn store_tokens(tokens: Map<u128, TokenInfo>, first: u128, batch: Seq<TokenData>, owner: String, lo: int) -> Map<
    u128,
    TokenInfo,
> {
    Map::new(
        |k: u128| tokens.contains_key(k) || in_range(k, first, lo, batch.len() as int),
        |k: u128|
            if in_range(k, first, lo, batch.len() as int) {
                stored_token(batch[k - first], owner)
            } else {
                tokens[k]
            },
    )
}

/// `m` without the ids `first + i` for `lo <= i < hi`.
pub open spec fn without_range<V>(m: Map<u128, V>, first: u128, lo: int, hi: int) -> Map<u128, V> {
    Map::new(|k: u128| m.contains_key(k) && !in_range(k, first, lo, hi), |k: u128| m[k])
}

/// The name of the item with id `id` built from `template`.
pub open spec fn conf_name(template: StoreConf, id: u128) -> Seq<char> {
    template.name@ + " #"@ + decimal(id as nat)
}

/// The image of the item with id `id` built from `template`.
pub open spec fn conf_image(template: StoreConf, id: u128) -> Seq<char> {
    template.ipfs@ + "/"@ + decimal(id as nat) + ".png"@
}

/// Whether `traits` pairs the template's trait names with the values of
/// `row`, in order.
pub open spec fn conf_traits(traits: Seq<Trait>, names: Seq<String>, row: Seq<String>) -> bool {
    &&& traits.len() == row.len()
    &&& forall|j: int|
        0 <= j < traits.len() ==> (#[trigger] traits[j]).display_type is None && traits[j].trait_type == names[j] && traits[j].value
            == row[j]
}

/// Whether `t` is the item with id `id` that `template` builds from the trait
/// values `row` for `owner`.
pub open spec fn conf_token(t: TokenInfo, template: StoreConf, row: Seq<String>, id: u128, owner: String) -> bool {
    &&& t.owner == owner
    &&& t.token_uri is None
    &&& t.extension matches Some(m) && {
        &&& m.name matches Some(n) && n@ == conf_name(template, id)
        &&& m.description matches Some(d) && d@ == template.desc@
        &&& m.image matches Some(i) && i@ == conf_image(template, id)
        &&& m.attributes matches Some(a) && conf_traits(a@, template.attributes@, row)
        &&& m.image_data is None
        &&& m.external_url is None
        &&& m.background_color is None
        &&& m.animation_url is None
        &&& m.youtube_url is None
    }
}

/// Only the texts and trait names of a template matter to the items it builds.
proof fn lemma_conf_token_template(t: TokenInfo, a: StoreConf, b: StoreConf, row: Seq<String>, id: u128, owner: String)
    requires
        conf_token(t, a, row, id, owner),
        a.name@ == b.name@,
        a.desc@ == b.desc@,
        a.ipfs@ == b.ipfs@,
        a.attributes@ == b.attributes@,
    ensures
        conf_token(t, b, row, id, owner),
{
}

/// The template a call uses: the one it brings, else the configured one.
pub open spec fn template_for(conf: Option<StoreConf>, configured: StoreConf) -> StoreConf {
    match conf {
        Some(c) => c,
        None => configured,
    }
}

/// Whether a row of `rows` has not as many values as `template` has trait names.
pub open spec fn has_mismatch(rows: Seq<Vec<String>>, template: StoreConf) -> bool {
    exists|j: int| mismatch_at(rows, template.attributes@.len(), j)
}

/// Whether `after` is `before` with one item per row of `rows` built from
/// `template` and stored, owned by the administrator, under consecutive ids
/// from the inventory total, which grows by the number of rows.
pub open spec fn conf_stored(before: CollectionView, after: CollectionView, template: StoreConf, rows: Seq<Vec<String>>) -> bool {
    let first = before.config.token_total;
    &&& after.config == (Config { token_total: (first + rows.len()) as u128, ..before.config })
    &&& after.approvals == without_range(before.approvals, first, 0, rows.len() as int)
    &&& forall|k: u128|
        #![trigger after.tokens.contains_key(k)]
        in_range(k, first, 0, rows.len() as int) ==> after.tokens.contains_key(k) && conf_token(
            after.tokens[k],
            template,
            rows[k - first]@,
            k,
            before.minter,
        )
    &&& forall|k: u128|
        #![trigger after.tokens.contains_key(k)]
        !in_range(k, first, 0, rows.len() as int) ==> (after.tokens.contains_key(k) == before.tokens.contains_key(k) && (
        before.tokens.contains_key(k) ==> after.tokens[k] == before.tokens[k]))
    &&& after == (CollectionView { tokens: after.tokens, approvals: after.approvals, config: after.config, ..before })
}

/// Whether row `j` is the first of `rows` whose length is not `n`.
pub open spec fn mismatch_at(rows: Seq<Vec<String>>, n: nat, j: int) -> bool {
    &&& 0 <= j < rows.len()
    &&& rows[j]@.len() != n
    &&& forall|i: int| 0 <= i < j ==> (#[trigger] rows[i]@).len() == n
}

/// Refuses pre-allocation unless `sender` administers the collection, it is
/// not frozen, and its inventory total is under the supply cap.
pub fn can_store(state: &Collection, sender: &String) -> (r: Result<(), ContractError>)
    ensures
        match store_refusal(state@, sender@) {
            Some(e) => r == Err::<(), ContractError>(e),
            None => r is Ok,
        },
{
    if *sender != state.minter {
        return Err(ContractError::Unauthorized);
    }
    if state.config.frozen {
        return Err(ContractError::ContractFrozen);
    }
    if state.config.token_total >= state.config.token_supply {
        return Err(ContractError::MaxTokenSupply);
    }
    Ok(())
}

/// Adds `amount` to the inventory total, failing with `CantUpdateTotal` when
/// the sum does not fit. Returns the new total.
pub fn update_total(config: &mut Config, amount: u128) -> (r: Result<u128, ContractError>)
    ensures
        old(config).token_total + amount > u128::MAX ==> r == Err::<u128, ContractError>(ContractError::CantUpdateTotal) && *final(config)
            == *old(config),
        old(config).token_total + amount <= u128::MAX ==> r == Ok::<u128, ContractError>((old(config).token_total + amount) as u128)
            && *final(config) == (Config { token_total: (old(config).token_total + amount) as u128, ..*old(config) }),
{
    match config.token_total.checked_add(amount) {
        None => Err(ContractError::CantUpdateTotal),
        Some(total) => {
            config.token_total = total;
            Ok(total)
        },
    }
}

/// Refuses a store into the `n` ids from `first` where one of them is
/// occupied, naming the first such id.
fn check_free(state: &Collection, first: u128, n: usize) -> (r: Result<(), ContractError>)
    requires
        first + n <= u128::MAX,
    ensures
        !range_taken(state@, first, n as nat) ==> r is Ok,
        range_taken(state@, first, n as nat) ==> exists|j: int|
            taken_at(state@, first, n as nat, j) && r == Err::<(), ContractError>(
                ContractError::TokenExists { token_id: (first + j) as u128 },
            ),
{
    let mut i: usize = 0;
    while i < n
        invariant
            0 <= i <= n,
            first + n <= u128::MAX,
            forall|q: int| 0 <= q < i ==> !#[trigger] occupied_from(state@, first, q),
        decreases n - i,
    {
        let id = first + i as u128;
        if state.tokens.contains_key(&id) || state.burned.contains_key(&id) {
            proof {
                assert(taken_at(state@, first, n as nat, i as int));
            }
            return Err(ContractError::TokenExists { token_id: id });
        }
        proof {
            assert(!occupied_from(state@, first, i as int));
        }
        i = i + 1;
    }
    proof {
        assert forall|j: int| !taken_at(state@, first, n as nat, j) by {
            if 0 <= j < n {
                assert(!occupied_from(state@, first, j));
            }
        }
    }
    Ok(())
}

impl Collection {
    /// Stores `token` under `id`, without approvals.
    pub fn try_store(&mut self, id: u128, token: TokenInfo)
        ensures
            final(self)@ == (CollectionView {
                tokens: old(self)@.tokens.insert(id, token),
                approvals: old(self)@.approvals.remove(id),
                ..old(self)@
            }),
    {
        self.tokens.insert(id, token);
        self.approvals.remove(&id);
    }
}

/// Pre-allocates one item, owned by the administrator, under the next id,
/// which is the inventory total; an id that holds an item or a tombstone is
/// refused. Returns the new total.
pub fn execute_store(state: &mut Collection, sender: &String, data: TokenData) -> (r: Result<u128, ContractError>)
    ensures
        match store_refusal(old(state)@, sender@) {
            Some(e) => r == Err::<u128, ContractError>(e) && final(state)@ == old(state)@,
            None => {
                let id = old(state)@.config.token_total;
                if occupied(old(state)@, id) {
                    r == Err::<u128, ContractError>(ContractError::TokenExists { token_id: id }) && final(state)@ == old(state)@
                } else {
                    &&& r == Ok::<u128, ContractError>((id + 1) as u128)
                    &&& final(state)@ == (CollectionView {
                        tokens: old(state)@.tokens.insert(id, stored_token(data, old(state)@.minter)),
                        approvals: old(state)@.approvals.remove(id),
                        config: Config { token_total: (id + 1) as u128, ..old(state)@.config },
                        ..old(state)@
                    })
                }
            },
        },
{
    can_store(state, sender)?;
    let id = state.config.token_total;
    if state.tokens.contains_key(&id) || state.burned.contains_key(&id) {
        return Err(ContractError::TokenExists { token_id: id });
    }
    let token = TokenInfo { owner: state.minter.clone(), token_uri: data.token_uri, extension: data.extension };
    state.try_store(id, token);
    let total = state.config.token_total + 1;
    state.config.token_total = total;
    Ok(total)
}

/// Pre-allocates the items of `msg`, owned by the administrator, under
/// consecutive ids from the inventory total; where one of those ids holds an
/// item or a tombstone, nothing is stored. Returns the new total.
pub fn execute_store_batch(state: &mut Collection, sender: &String, msg: BatchStoreMsg) -> (r: Result<u128, ContractError>)
    ensures
        match store_refusal(old(state)@, sender@) {
            Some(e) => r == Err::<u128, ContractError>(e) && final(state)@ == old(state)@,
            None => {
                let first = old(state)@.config.token_total;
                let n = msg.batch@.len();
                if first + n > u128::MAX {
                    r == Err::<u128, ContractError>(ContractError::CantUpdateTotal) && final(state)@ == old(state)@
                } else if range_taken(old(state)@, first, n) {
                    final(state)@ == old(state)@ && exists|j: int|
                        taken_at(old(state)@, first, n, j) && r == Err::<u128, ContractError>(
                            ContractError::TokenExists { token_id: (first + j) as u128 },
                        )
                } else {
                    &&& r == Ok::<u128, ContractError>((first + n) as u128)
                    &&& final(state)@ == (CollectionView {
                        tokens: store_tokens(old(state)@.tokens, first, msg.batch@, old(state)@.minter, 0),
                        approvals: without_range(old(state)@.approvals, first, 0, n as int),
                        config: Config { token_total: (first + n) as u128, ..old(state)@.config },
                        ..old(state)@
                    })
                }
            },
        },
{
    can_store(state, sender)?;
    let first = state.config.token_total;
    let n = msg.batch.len();
    if first.checked_add(n as u128).is_none() {
        return Err(ContractError::CantUpdateTotal);
    }
    check_free(state, first, n)?;
    let ghost old_state = state@;
    let ghost items = msg.batch@;
    let mut batch = msg.batch;
    proof {
        assert(state@.tokens =~= store_tokens(old_state.tokens, first, items, old_state.minter, n as int));
        assert(state@.approvals =~= without_range(old_state.approvals, first, n as int, n as int));
        assert(batch@ =~= items.take(n as int));
    }
    while batch.len() > 0
        invariant
            batch@.len() <= n,
            n == items.len(),
            first + n <= u128::MAX,
            batch@ == items.take(batch@.len() as int),
            state@ == (CollectionView {
                tokens: store_tokens(old_state.tokens, first, items, old_state.minter, batch@.len() as int),
                approvals: without_range(old_state.approvals, first, batch@.len() as int, n as int),
                ..old_state
            }),
        decreases batch@.len(),
    {
        let ghost before = batch@;
        match batch.pop() {
            None => {},
            Some(data) => {
                let id = first + batch.len() as u128;
                proof {
                    assert(data == items[batch@.len() as int]);
                    assert(batch@ =~= items.take(batch@.len() as int));
                }
                let token = TokenInfo { owner: state.minter.clone(), token_uri: data.token_uri, extension: data.extension };
                state.try_store(id, token);
                proof {
                    assert(state@.tokens =~= store_tokens(old_state.tokens, first, items, old_state.minter, batch@.len() as int));
                    assert(state@.approvals =~= without_range(old_state.approvals, first, batch@.len() as int, n as int));
                }
            },
        }
    }
    update_total(&mut state.config, n as u128)
}

/// The trait list that pairs the template's trait names with `row`.
fn build_traits(names: &Vec<String>, row: &Vec<String>) -> (r: Vec<Trait>)
    requires
        row@.len() == names@.len(),
    ensures
        conf_traits(r@, names@, row@),
{
    let mut traits: Vec<Trait> = Vec::new();
    let mut j: usize = 0;
    while j < row.len()
        invariant
            row@.len() == names@.len(),
            0 <= j <= row@.len(),
            traits@.len() == j,
            forall|i: int|
                0 <= i < j ==> (#[trigger] traits@[i]).display_type is None && traits@[i].trait_type == names@[i] && traits@[i].value
                    == row@[i],
        decreases row@.len() - j,
    {
        traits.push(Trait { display_type: None, trait_type: names[j].clone(), value: row[j].clone() });
        j = j + 1;
    }
    traits
}

/// The item with id `id` that `template` builds from `row` for `owner`.
fn build_conf_token(template: &StoreConf, row: &Vec<String>, id: u128, owner: &String) -> (r: TokenInfo)
    requires
        row@.len() == template.attributes@.len(),
    ensures
        conf_token(r, *template, row@, id, *owner),
{
    let mut name = template.name.clone();
    name.append(" #");
    push_decimal(&mut name, id);
    let mut image = template.ipfs.clone();
    image.append("/");
    push_decimal(&mut image, id);
    image.append(".png");
    proof {
        reveal_strlit(" #");
        reveal_strlit("/");
        reveal_strlit(".png");
    }
    let attributes = build_traits(&template.attributes, row);
    TokenInfo {
        owner: owner.clone(),
        token_uri: None,
        extension: Some(
            Metadata {
                image: Some(image),
                image_data: None,
                external_url: None,
                description: Some(template.desc.clone()),
                name: Some(name),
                attributes: Some(attributes),
                background_color: None,
                animation_url: None,
                youtube_url: None,
            },
        ),
    }
}

/// Pre-allocates one item per row of trait values in `msg`, built from the
/// template of `msg` or else the configured one, under consecutive ids from
/// the inventory total: the item with id `k` is named `"<name> #<k>"`, has
/// the image `"<ipfs>/<k>.png"` and pairs the template's trait names with its
/// row. A row whose length differs from the template's trait names refuses
/// the whole call. Returns the new total.
#[verifier::spinoff_prover]
#[verifier::rlimit(50)]
pub fn execute_store_conf(state: &mut Collection, sender: &String, msg: &StoreConfMsg) -> (r: Result<u128, ContractError>)
    ensures
        store_refusal(old(state)@, sender@) matches Some(e) ==> r == Err::<u128, ContractError>(e) && final(state)@ == old(state)@,
        store_refusal(old(state)@, sender@) is None && has_mismatch(msg.attributes@, template_for(msg.conf, old(state)@.config.store_conf))
            ==> final(state)@ == old(state)@ && exists|j: int|
            mismatch_at(msg.attributes@, template_for(msg.conf, old(state)@.config.store_conf).attributes@.len(), j) && r == Err::<
                u128,
                ContractError,
            >(
                ContractError::AttributeCountMismatch {
                    expected: template_for(msg.conf, old(state)@.config.store_conf).attributes@.len() as usize,
                    found: msg.attributes@[j]@.len() as usize,
                },
            ),
        store_refusal(old(state)@, sender@) is None && !has_mismatch(msg.attributes@, template_for(msg.conf, old(state)@.config.store_conf))
            && old(state)@.config.token_total + msg.attributes@.len() > u128::MAX ==> r == Err::<u128, ContractError>(
            ContractError::CantUpdateTotal,
        ) && final(state)@ == old(state)@,
        store_refusal(old(state)@, sender@) is None && !has_mismatch(msg.attributes@, template_for(msg.conf, old(state)@.config.store_conf))
            && old(state)@.config.token_total + msg.attributes@.len() <= u128::MAX && range_taken(
            old(state)@,
            old(state)@.config.token_total,
            msg.attributes@.len(),
        ) ==> final(state)@ == old(state)@ && exists|j: int|
            taken_at(old(state)@, old(state)@.config.token_total, msg.attributes@.len(), j) && r == Err::<u128, ContractError>(
                ContractError::TokenExists { token_id: (old(state)@.config.token_total + j) as u128 },
            ),
        store_refusal(old(state)@, sender@) is None && !has_mismatch(msg.attributes@, template_for(msg.conf, old(state)@.config.store_conf))
            && old(state)@.config.token_total + msg.attributes@.len() <= u128::MAX && !range_taken(
            old(state)@,
            old(state)@.config.token_total,
            msg.attributes@.len(),
        ) ==> r == Ok::<u128, ContractError>(
            (old(state)@.config.token_total + msg.attributes@.len()) as u128,
        ) && conf_stored(old(state)@, final(state)@, template_for(msg.conf, old(state)@.config.store_conf), msg.attributes@),
{
    let ghost spec_template = template_for(msg.conf, state@.config.store_conf);
    let ghost spec_rows = msg.attributes@;
    can_store(state, sender)?;
    let rows = &msg.attributes;
    let template = match &msg.conf {
        Some(c) => c.clone_conf(),
        None => state.config.store_conf.clone_conf(),
    };
    assert(template.name@ == spec_template.name@ && template.desc@ == spec_template.desc@ && template.ipfs@ == spec_template.ipfs@
        && template.attributes@ == spec_template.attributes@);
    let names = template.attributes.len();
    let mut j: usize = 0;
    while j < rows.len()
        invariant
            0 <= j <= rows@.len(),
            rows@ == spec_rows,
            spec_rows == msg.attributes@,
            store_refusal(old(state)@, sender@) is None,
            spec_template == template_for(msg.conf, old(state)@.config.store_conf),
            names == spec_template.attributes@.len(),
            state@ == old(state)@,
            forall|i: int| 0 <= i < j ==> (#[trigger] rows@[i]@).len() == names,
        decreases rows@.len() - j,
    {
        if rows[j].len() != names {
            proof {
                assert(mismatch_at(rows@, names as nat, j as int));
                assert(exists|q: int| mismatch_at(rows@, names as nat, q));
            }
            return Err(ContractError::AttributeCountMismatch { expected: names, found: rows[j].len() });
        }
        j = j + 1;
    }
    let first = state.config.token_total;
    let n = rows.len();
    if first.checked_add(n as u128).is_none() {
        return Err(ContractError::CantUpdateTotal);
    }
    check_free(state, first, n)?;
    let ghost old_state = state@;
    let mut i: usize = 0;
    while i < n
        invariant
            0 <= i <= n,
            n == rows@.len(),
            rows@ == spec_rows,
            spec_rows == msg.attributes@,
            store_refusal(old(state)@, sender@) is None,
            spec_template == template_for(msg.conf, old(state)@.config.store_conf),
            old_state == old(state)@,
            template.name@ == spec_template.name@,
            template.desc@ == spec_template.desc@,
            template.ipfs@ == spec_template.ipfs@,
            template.attributes@ == spec_template.attributes@,
            first == old_state.config.token_total,
            first + n <= u128::MAX,
            forall|q: int| 0 <= q < n ==> (#[trigger] rows@[q]@).len() == template.attributes@.len(),
            state@ == (CollectionView { tokens: state@.tokens, approvals: state@.approvals, ..old_state }),
            state@.approvals == without_range(old_state.approvals, first, 0, i as int),
            forall|k: u128|
                #![trigger state@.tokens.contains_key(k)]
                in_range(k, first, 0, i as int) ==> state@.tokens.contains_key(k) && conf_token(
                    state@.tokens[k],
                    template,
                    rows@[k - first]@,
                    k,
                    old_state.minter,
                ),
            forall|k: u128|
                #![trigger state@.tokens.contains_key(k)]
                !in_range(k, first, 0, i as int) ==> (state@.tokens.contains_key(k) == old_state.tokens.contains_key(k) && (
                old_state.tokens.contains_key(k) ==> state@.tokens[k] == old_state.tokens[k])),
        decreases n - i,
    {
        let id = first + i as u128;
        let token = build_conf_token(&template, &rows[i], id, &state.minter);
        let ghost built = token;
        let ghost prev = state@;
        state.try_store(id, token);
        proof {
            assert forall|k: u128|
                #![trigger state@.tokens.contains_key(k)]
                in_range(k, first, 0, i + 1) implies state@.tokens.contains_key(k) && conf_token(
                    state@.tokens[k],
                    template,
                    rows@[k - first]@,
                    k,
                    old_state.minter,
                ) by {
                if k != id {
                    assert(in_range(k, first, 0, i as int));
                    assert(prev.tokens.contains_key(k));
                    assert(state@.tokens[k] == prev.tokens[k]);
                } else {
                    assert(k - first == i);
                    assert(state@.tokens[k] == built);
                }
            }
            assert forall|k: u128|
                #![trigger state@.tokens.contains_key(k)]
                !in_range(k, first, 0, i + 1) implies (state@.tokens.contains_key(k) == old_state.tokens.contains_key(k) && (
                old_state.tokens.contains_key(k) ==> state@.tokens[k] == old_state.tokens[k])) by {
                assert(k != id);
                assert(!in_range(k, first, 0, i as int));
                assert(prev.tokens.contains_key(k) == old_state.tokens.contains_key(k));
                assert(state@.tokens.contains_key(k) == prev.tokens.contains_key(k));
                if old_state.tokens.contains_key(k) {
                    assert(state@.tokens[k] == prev.tokens[k]);
                }
            }
            assert(state@.approvals =~= without_range(old_state.approvals, first, 0, i + 1));
        }
        i = i + 1;
    }
    let r = update_total(&mut state.config, n as u128);
    proof {
        let before = old(state)@;
        let after = state@;
        let t = template_for(msg.conf, old(state)@.config.store_conf);
        let rws = msg.attributes@;
        let f = before.config.token_total;
        assert forall|k: u128|
            #![trigger after.tokens.contains_key(k)]
            in_range(k, f, 0, rws.len() as int) implies after.tokens.contains_key(k) && conf_token(after.tokens[k], t, rws[k - f]@, k, before.minter) by {
            assert(f == first);
            assert(in_range(k, first, 0, i as int));
            assert(state@.tokens.contains_key(k));
            assert(conf_token(state@.tokens[k], template, rows@[k - first]@, k, old_state.minter));
            lemma_conf_token_template(state@.tokens[k], template, t, rws[k - f]@, k, before.minter);
        }
        assert(conf_stored(before, after, t, rws));
    }
    r
}

impl StoreConf {
    /// A copy of this template.
    pub fn clone_conf(&self) -> (r: StoreConf)
        ensures
            r.name@ == self.name@,
            r.desc@ == self.desc@,
            r.ipfs@ == self.ipfs@,
            r.attributes@ == self.attributes@,
    {
        let mut attributes: Vec<String> = Vec::new();
        let mut j: usize = 0;
        while j < self.attributes.len()
            invariant
                0 <= j <= self.attributes@.len(),
                attributes@ == self.attributes@.take(j as int),
            decreases self.attributes@.len() - j,
        {
            attributes.push(self.attributes[j].clone());
            proof {
                assert(attributes@ =~= self.attributes@.take(j + 1));
            }
            j = j + 1;
        }
        proof {
            assert(attributes@ =~= self.attributes@);
        }
        StoreConf { name: self.name.clone(), desc: self.desc.clone(), ipfs: self.ipfs.clone(), attributes }
    }
}

} // verus!
