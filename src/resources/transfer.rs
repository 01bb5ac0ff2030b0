//! Transfers to connected accounts, and their reversals.

use vstd::prelude::*;
use crate::client::{Client, Error, Method, Request, TransportError, call, path_with, responds};
use crate::decode::{DecodeError, FromJson, Metadata, has, has_opt, required, optional};
use crate::encode::{ToJson, enc, enc_opt, put, put_opt, with_key};
use crate::json::{Json, field, keys, keys_of};
use crate::list::List;
use crate::resources::{Currency, Timestamp};

verus! {

broadcast use crate::json::lemma_entry_of_push;

/// The parameters of a transfer reversal.
#[derive(Debug)]
pub struct TransferReversalParams {
    pub id: String,
    pub amount: Option<u64>,
    pub description: Option<String>,
    pub metadata: Option<Metadata>,
    pub refund_application_fee: Option<bool>,
}

impl TransferReversalParams {
    /// The keys written, in order: the required ones always, the optional
    /// ones only when set.
    pub open spec fn wire_keys(&self) -> Seq<Seq<char>> {
        let s = Seq::<Seq<char>>::empty();
        let s = s.push("id"@);
        let s = with_key(s, "amount"@, self.amount is Some);
        let s = with_key(s, "description"@, self.description is Some);
        let s = with_key(s, "metadata"@, self.metadata is Some);
        let s = with_key(s, "refund_application_fee"@, self.refund_application_fee is Some);
        s
    }
}

impl ToJson for TransferReversalParams {
    open spec fn encodes_as(&self, j: Json) -> bool {
        j is Obj
        && keys_of(j) == self.wire_keys()
        && enc(j, "id"@, self.id)
        && enc_opt(j, "amount"@, self.amount)
        && enc_opt(j, "description"@, self.description)
        && enc_opt(j, "metadata"@, self.metadata)
        && enc_opt(j, "refund_application_fee"@, self.refund_application_fee)
    }

    fn to_json(&self) -> (r: Json) {
        let mut es: Vec<(String, Json)> = Vec::new();
        proof {
            assert(keys(es@) =~= Seq::<Seq<char>>::empty());
        }
        put(&mut es, "id", &self.id);
        put_opt(&mut es, "amount", &self.amount);
        put_opt(&mut es, "description", &self.description);
        put_opt(&mut es, "metadata", &self.metadata);
        put_opt(&mut es, "refund_application_fee", &self.refund_application_fee);
        proof {
            reveal_strlit("id");
            assert("id"@.len() == 2);
            reveal_strlit("amount");
            assert("amount"@.len() == 6);
            reveal_strlit("description");
            assert("description"@.len() == 11);
            reveal_strlit("metadata");
            assert("metadata"@.len() == 8);
            reveal_strlit("refund_application_fee");
            assert("refund_application_fee"@.len() == 22);
        }
        Json::Obj(es)
    }
}

/// A transfer reversal as the server reports it.
#[derive(Debug)]
pub struct TransferReversal {
    pub id: String,
    pub object: String,
    pub amount: u64,
    pub balance_transaction: Option<String>,
    pub created: Timestamp,
    pub currency: Currency,
    pub metadata: Metadata,
    pub transfer: String,
}

impl FromJson for TransferReversal {
    open spec fn decodes_as(j: Json, v: TransferReversal) -> bool {
        j is Obj
        && has(j, "id"@, v.id)
        && has(j, "object"@, v.object)
        && has(j, "amount"@, v.amount)
        && has_opt(j, "balance_transaction"@, v.balance_transaction)
        && has(j, "created"@, v.created)
        && has(j, "currency"@, v.currency)
        && has(j, "metadata"@, v.metadata)
        && has(j, "transfer"@, v.transfer)
    }

    fn from_json(j: &Json) -> (r: Result<TransferReversal, DecodeError>) {
        if !j.is_object() {
            return Err(DecodeError::Malformed);
        }
        let id = required::<String>(j, "id")?;
        let object = required::<String>(j, "object")?;
        let amount = required::<u64>(j, "amount")?;
        let balance_transaction = optional::<String>(j, "balance_transaction")?;
        let created = required::<Timestamp>(j, "created")?;
        let currency = required::<Currency>(j, "currency")?;
        let metadata = required::<Metadata>(j, "metadata")?;
        let transfer = required::<String>(j, "transfer")?;
        Ok(TransferReversal {
            id,
            object,
            amount,
            balance_transaction,
            created,
            currency,
            metadata,
            transfer,
        })
    }
}

/// The parameters of a transfer's creation or update.
#[derive(Debug)]
pub struct TransferParams {
    pub amount: u64,
    pub currency: String,
    pub destination: String,
    pub description: Option<String>,
    pub metadata: Option<Metadata>,
    pub source_transaction: Option<String>,
    pub source_type: Option<String>,
    pub transfer_group: Option<String>,
}

impl TransferParams {
    /// The keys written, in order: the required ones always, the optional
    /// ones only when set.
    pub open spec fn wire_keys(&self) -> Seq<Seq<char>> {
        let s = Seq::<Seq<char>>::empty();
        let s = s.push("amount"@);
        let s = s.push("currency"@);
        let s = s.push("destination"@);
        let s = with_key(s, "description"@, self.description is Some);
        let s = with_key(s, "metadata"@, self.metadata is Some);
        let s = with_key(s, "source_transaction"@, self.source_transaction is Some);
        let s = with_key(s, "source_type"@, self.source_type is Some);
        let s = with_key(s, "transfer_group"@, self.transfer_group is Some);
        s
    }
}

impl ToJson for TransferParams {
    open spec fn encodes_as(&self, j: Json) -> bool {
        j is Obj
        && keys_of(j) == self.wire_keys()
        && enc(j, "amount"@, self.amount)
        && enc(j, "currency"@, self.currency)
        && enc(j, "destination"@, self.destination)
        && enc_opt(j, "description"@, self.description)
        && enc_opt(j, "metadata"@, self.metadata)
        && enc_opt(j, "source_transaction"@, self.source_transaction)
        && enc_opt(j, "source_type"@, self.source_type)
        && enc_opt(j, "transfer_group"@, self.transfer_group)
    }

    fn to_json(&self) -> (r: Json) {
        let mut es: Vec<(String, Json)> = Vec::new();
        proof {
            assert(keys(es@) =~= Seq::<Seq<char>>::empty());
        }
        put(&mut es, "amount", &self.amount);
        put(&mut es, "currency", &self.currency);
        put(&mut es, "destination", &self.destination);
        put_opt(&mut es, "description", &self.description);
        put_opt(&mut es, "metadata", &self.metadata);
        put_opt(&mut es, "source_transaction", &self.source_transaction);
        put_opt(&mut es, "source_type", &self.source_type);
        put_opt(&mut es, "transfer_group", &self.transfer_group);
        proof {
            reveal_strlit("amount");
            assert("amount"@.len() == 6);
            reveal_strlit("currency");
            assert("currency"@.len() == 8);
            reveal_strlit("destination");
            assert("destination"@.len() == 11);
            reveal_strlit("description");
            assert("description"@.len() == 11);
            reveal_strlit("metadata");
            assert("metadata"@.len() == 8);
            reveal_strlit("source_transaction");
            assert("source_transaction"@.len() == 18);
            reveal_strlit("source_type");
            assert("source_type"@.len() == 11);
            reveal_strlit("transfer_group");
            assert("transfer_group"@.len() == 14);
            assert("currency"@[0] == 'c' && "metadata"@[0] == 'm');
            assert("destination"@[3] == 't' && "description"@[3] == 'c');
            assert("destination"@[0] == 'd' && "source_type"@[0] == 's');
            assert("description"@[0] == 'd' && "source_type"@[0] == 's');
        }
        Json::Obj(es)
    }
}

/// A transfer as the server reports it.
#[derive(Debug)]
pub struct Transfer {
    pub id: String,
    pub object: String,
    pub amount: u64,
    pub amount_reversed: u64,
    pub balance_transaction: String,
    pub created: Timestamp,
    pub currency: Currency,
    pub description: Option<String>,
    pub destination: String,
    pub destination_payment: String,
    pub livemode: bool,
    pub metadata: Metadata,
    pub reversals: List<TransferReversal>,
    pub reversed: bool,
    pub source_transaction: Option<String>,
    pub source_type: String,
    pub transfer_group: Option<String>,
}

impl FromJson for Transfer {
    open spec fn decodes_as(j: Json, v: Transfer) -> bool {
        j is Obj
        && has(j, "id"@, v.id)
        && has(j, "object"@, v.object)
        && has(j, "amount"@, v.amount)
        && has(j, "amount_reversed"@, v.amount_reversed)
        && has(j, "balance_transaction"@, v.balance_transaction)
        && has(j, "created"@, v.created)
        && has(j, "currency"@, v.currency)
        && has_opt(j, "description"@, v.description)
        && has(j, "destination"@, v.destination)
        && has(j, "destination_payment"@, v.destination_payment)
        && has(j, "livemode"@, v.livemode)
        && has(j, "metadata"@, v.metadata)
        && has(j, "reversals"@, v.reversals)
        && has(j, "reversed"@, v.reversed)
        && has_opt(j, "source_transaction"@, v.source_transaction)
        && has(j, "source_type"@, v.source_type)
        && has_opt(j, "transfer_group"@, v.transfer_group)
    }

    fn from_json(j: &Json) -> (r: Result<Transfer, DecodeError>) {
        if !j.is_object() {
            return Err(DecodeError::Malformed);
        }
        let id = required::<String>(j, "id")?;
        let object = required::<String>(j, "object")?;
        let amount = required::<u64>(j, "amount")?;
        let amount_reversed = required::<u64>(j, "amount_reversed")?;
        let balance_transaction = required::<String>(j, "balance_transaction")?;
        let created = required::<Timestamp>(j, "created")?;
        let currency = required::<Currency>(j, "currency")?;
        let description = optional::<String>(j, "description")?;
        let destination = required::<String>(j, "destination")?;
        let destination_payment = required::<String>(j, "destination_payment")?;
        let livemode = required::<bool>(j, "livemode")?;
        let metadata = required::<Metadata>(j, "metadata")?;
        let reversals = required::<List<TransferReversal>>(j, "reversals")?;
        let reversed = required::<bool>(j, "reversed")?;
        let source_transaction = optional::<String>(j, "source_transaction")?;
        let source_type = required::<String>(j, "source_type")?;
        let transfer_group = optional::<String>(j, "transfer_group")?;
        Ok(Transfer {
            id,
            object,
            amount,
            amount_reversed,
            balance_transaction,
            created,
            currency,
            description,
            destination,
            destination_payment,
            livemode,
            metadata,
            reversals,
            reversed,
            source_transaction,
            source_type,
            transfer_group,
        })
    }
}

/// With every optional member unset, a transfer's parameters are written as
/// exactly `amount`, `currency` and `destination`, in that order.
pub proof fn lemma_transfer_params_unset_omitted(p: TransferParams, j: Json)
    requires
        p.description is None,
        p.metadata is None,
        p.source_transaction is None,
        p.source_type is None,
        p.transfer_group is None,
        p.encodes_as(j),
    ensures
        keys_of(j) == Seq::<Seq<char>>::empty().push("amount"@).push("currency"@).push("destination"@),
        field(j, "description"@) is None,
        field(j, "metadata"@) is None,
        field(j, "source_transaction"@) is None,
        field(j, "source_type"@) is None,
        field(j, "transfer_group"@) is None,
{
}

/// Each optional member that is set is written under its key as its own wire
/// form, whatever the other optional members hold.
pub proof fn lemma_transfer_params_set_present(p: TransferParams, j: Json)
    requires
        p.encodes_as(j),
    ensures
        p.description matches Some(v) ==> enc(j, "description"@, v),
        p.metadata matches Some(v) ==> enc(j, "metadata"@, v),
        p.source_transaction matches Some(v) ==> enc(j, "source_transaction"@, v),
        p.source_type matches Some(v) ==> enc(j, "source_type"@, v),
        p.transfer_group matches Some(v) ==> enc(j, "transfer_group"@, v),
{
}

/// With every optional member unset, a reversal's parameters are written as
/// exactly `id`.
pub proof fn lemma_transfer_reversal_params_unset_omitted(p: TransferReversalParams, j: Json)
    requires
        p.amount is None,
        p.description is None,
        p.metadata is None,
        p.refund_application_fee is None,
        p.encodes_as(j),
    ensures
        keys_of(j) == Seq::<Seq<char>>::empty().push("id"@),
        field(j, "amount"@) is None,
        field(j, "description"@) is None,
        field(j, "metadata"@) is None,
        field(j, "refund_application_fee"@) is None,
{
}

/// Each optional member of a reversal's parameters that is set is written under
/// its key as its own wire form.
pub proof fn lemma_transfer_reversal_params_set_present(p: TransferReversalParams, j: Json)
    requires
        p.encodes_as(j),
    ensures
        p.amount matches Some(v) ==> enc(j, "amount"@, v),
        p.description matches Some(v) ==> enc(j, "description"@, v),
        p.metadata matches Some(v) ==> enc(j, "metadata"@, v),
        p.refund_application_fee matches Some(v) ==> enc(j, "refund_application_fee"@, v),
{
}

impl Transfer {
    /// The request that creates a transfer.
    pub fn create_request(params: &TransferParams) -> (r: Request)
        ensures
            r.method == Method::Post,
            r.path@ == "/transfers"@,
            r.body matches Some(b) && params.encodes_as(b),
    {
        let path = "/transfers".to_owned();
        Request { method: Method::Post, path, body: Some(params.to_json()) }
    }

    /// Sends the request that creates a transfer, and reads the answer.
    pub fn create<C: Client>(client: &C, params: TransferParams) -> (r: Result<Transfer, Error>)
        ensures
            exists|raw: Result<Json, TransportError>| responds(raw, r),
    {
        call(client, &Self::create_request(&params))
    }

    /// The request that reverses part or all of the transfer `transfer_id`.
    pub fn reverse_request(transfer_id: &str, params: &TransferReversalParams) -> (r: Request)
        ensures
            r.method == Method::Post,
            r.path@ == "/transfers/"@ + transfer_id@ + "/reversals"@,
            r.body matches Some(b) && params.encodes_as(b),
    {
        let path = path_with("/transfers/", transfer_id, "/reversals");
        Request { method: Method::Post, path, body: Some(params.to_json()) }
    }

    /// Sends the request that reverses part or all of the transfer `transfer_id`, and reads the answer.
    pub fn reverse<C: Client>(client: &C, transfer_id: &str, params: TransferReversalParams) -> (r: Result<TransferReversal, Error>)
        ensures
            exists|raw: Result<Json, TransportError>| responds(raw, r),
    {
        call(client, &Self::reverse_request(transfer_id, &params))
    }

}

/// A transfer without `id` reads as no transfer; one without `description`
/// reads with `description` unset.
pub proof fn lemma_transfer_fields(j: Json, t: Transfer)
    ensures
        field(j, "id"@) is None ==> !Transfer::decodes_as(j, t),
        field(j, "description"@) is None && Transfer::decodes_as(j, t) ==> t.description is None,
{
}

} // verus!
