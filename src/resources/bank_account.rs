//! Bank accounts that receive payouts.

use vstd::prelude::*;
use crate::decode::{DecodeError, FromJson, Metadata, has, required, optional};
use crate::encode::{ToJson, enc, enc_opt, put, put_opt, with_key};
use crate::json::{Json, field, keys, keys_of};
use crate::resources::Currency;

verus! {

broadcast use crate::json::lemma_entry_of_push;

/// The parameters of a bank account's creation.
#[derive(Debug)]
pub struct BankAccountParams {
    pub object: String,
    pub country: String,
    pub currency: String,
    pub account_holder_name: Option<String>,
    pub account_holder_type: Option<String>,
    pub routing_number: Option<String>,
    pub account_number: String,
    pub default_for_currency: Option<String>,
    pub metadata: Option<Metadata>,
}

impl BankAccountParams {
    /// The keys written, in order: the required ones always, the optional
    /// ones only when set.
    pub open spec fn wire_keys(&self) -> Seq<Seq<char>> {
        let s = Seq::<Seq<char>>::empty();
        let s = s.push("object"@);
        let s = s.push("country"@);
        let s = s.push("currency"@);
        let s = with_key(s, "account_holder_name"@, self.account_holder_name is Some);
        let s = with_key(s, "account_holder_type"@, self.account_holder_type is Some);
        let s = with_key(s, "routing_number"@, self.routing_number is Some);
        let s = s.push("account_number"@);
        let s = with_key(s, "default_for_currency"@, self.default_for_currency is Some);
        let s = with_key(s, "metadata"@, self.metadata is Some);
        s
    }
}

impl ToJson for BankAccountParams {
    open spec fn encodes_as(&self, j: Json) -> bool {
        j is Obj
        && keys_of(j) == self.wire_keys()
        && enc(j, "object"@, self.object)
        && enc(j, "country"@, self.country)
        && enc(j, "currency"@, self.currency)
        && enc_opt(j, "account_holder_name"@, self.account_holder_name)
        && enc_opt(j, "account_holder_type"@, self.account_holder_type)
        && enc_opt(j, "routing_number"@, self.routing_number)
        && enc(j, "account_number"@, self.account_number)
        && enc_opt(j, "default_for_currency"@, self.default_for_currency)
        && enc_opt(j, "metadata"@, self.metadata)
    }

    fn to_json(&self) -> (r: Json) {
        let mut es: Vec<(String, Json)> = Vec::new();
        proof {
            assert(keys(es@) =~= Seq::<Seq<char>>::empty());
        }
        put(&mut es, "object", &self.object);
        put(&mut es, "country", &self.country);
        put(&mut es, "currency", &self.currency);
        put_opt(&mut es, "account_holder_name", &self.account_holder_name);
        put_opt(&mut es, "account_holder_type", &self.account_holder_type);
        put_opt(&mut es, "routing_number", &self.routing_number);
        put(&mut es, "account_number", &self.account_number);
        put_opt(&mut es, "default_for_currency", &self.default_for_currency);
        put_opt(&mut es, "metadata", &self.metadata);
        proof {
            reveal_strlit("object");
            assert("object"@.len() == 6);
            reveal_strlit("country");
            assert("country"@.len() == 7);
            reveal_strlit("currency");
            assert("currency"@.len() == 8);
            reveal_strlit("account_holder_name");
            assert("account_holder_name"@.len() == 19);
            reveal_strlit("account_holder_type");
            assert("account_holder_type"@.len() == 19);
            reveal_strlit("routing_number");
            assert("routing_number"@.len() == 14);
            reveal_strlit("account_number");
            assert("account_number"@.len() == 14);
            reveal_strlit("default_for_currency");
            assert("default_for_currency"@.len() == 20);
            reveal_strlit("metadata");
            assert("metadata"@.len() == 8);
            assert("currency"@[0] == 'c' && "metadata"@[0] == 'm');
            assert("account_holder_name"@[15] == 'n' && "account_holder_type"@[15] == 't');
            assert("routing_number"@[0] == 'r' && "account_number"@[0] == 'a');
        }
        Json::Obj(es)
    }
}

/// A bank account as the server reports it.
#[derive(Debug)]
pub struct BankAccount {
    pub id: String,
    pub object: String,
    pub account: String,
    pub account_holder_name: String,
    pub account_holder_type: String,
    pub bank_name: String,
    pub country: String,
    pub currency: Currency,
    pub default_for_currency: bool,
    pub fingerprint: String,
    pub last4: String,
    pub metadata: Metadata,
    pub routing_number: String,
    pub status: String,
}

impl FromJson for BankAccount {
    open spec fn decodes_as(j: Json, v: BankAccount) -> bool {
        j is Obj
        && has(j, "id"@, v.id)
        && has(j, "object"@, v.object)
        && has(j, "account"@, v.account)
        && has(j, "account_holder_name"@, v.account_holder_name)
        && has(j, "account_holder_type"@, v.account_holder_type)
        && has(j, "bank_name"@, v.bank_name)
        && has(j, "country"@, v.country)
        && has(j, "currency"@, v.currency)
        && has(j, "default_for_currency"@, v.default_for_currency)
        && has(j, "fingerprint"@, v.fingerprint)
        && has(j, "last4"@, v.last4)
        && has(j, "metadata"@, v.metadata)
        && has(j, "routing_number"@, v.routing_number)
        && has(j, "status"@, v.status)
    }

    fn from_json(j: &Json) -> (r: Result<BankAccount, DecodeError>) {
        if !j.is_object() {
            return Err(DecodeError::Malformed);
        }
        let id = required::<String>(j, "id")?;
        let object = required::<String>(j, "object")?;
        let account = required::<String>(j, "account")?;
        let account_holder_name = required::<String>(j, "account_holder_name")?;
        let account_holder_type = required::<String>(j, "account_holder_type")?;
        let bank_name = required::<String>(j, "bank_name")?;
        let country = required::<String>(j, "country")?;
        let currency = required::<Currency>(j, "currency")?;
        let default_for_currency = required::<bool>(j, "default_for_currency")?;
        let fingerprint = required::<String>(j, "fingerprint")?;
        let last4 = required::<String>(j, "last4")?;
        let metadata = required::<Metadata>(j, "metadata")?;
        let routing_number = required::<String>(j, "routing_number")?;
        let status = required::<String>(j, "status")?;
        Ok(BankAccount {
            id,
            object,
            account,
            account_holder_name,
            account_holder_type,
            bank_name,
            country,
            currency,
            default_for_currency,
            fingerprint,
            last4,
            metadata,
            routing_number,
            status,
        })
    }
}

/// With every optional member unset, a bank account's parameters are written
/// as exactly `object`, `country`, `currency` and `account_number`, in that order.
pub proof fn lemma_bank_account_params_unset_omitted(p: BankAccountParams, j: Json)
    requires
        p.account_holder_name is None,
        p.account_holder_type is None,
        p.routing_number is None,
        p.default_for_currency is None,
        p.metadata is None,
        p.encodes_as(j),
    ensures
        keys_of(j) == Seq::<Seq<char>>::empty().push("object"@).push("country"@).push("currency"@).push("account_number"@),
        field(j, "account_holder_name"@) is None,
        field(j, "account_holder_type"@) is None,
        field(j, "routing_number"@) is None,
        field(j, "default_for_currency"@) is None,
        field(j, "metadata"@) is None,
{
}

/// Each optional member of a bank account's parameters that is set is written
/// under its key as its own wire form, whatever the other members hold.
pub proof fn lemma_bank_account_params_set_present(p: BankAccountParams, j: Json)
    requires
        p.encodes_as(j),
    ensures
        p.account_holder_name matches Some(v) ==> enc(j, "account_holder_name"@, v),
        p.account_holder_type matches Some(v) ==> enc(j, "account_holder_type"@, v),
        p.routing_number matches Some(v) ==> enc(j, "routing_number"@, v),
        p.default_for_currency matches Some(v) ==> enc(j, "default_for_currency"@, v),
        p.metadata matches Some(v) ==> enc(j, "metadata"@, v),
{
}

} // verus!
