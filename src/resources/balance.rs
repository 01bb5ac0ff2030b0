//! The account balance and the transactions that move it.

use vstd::prelude::*;
use crate::client::{Client, Error, Method, Request, TransportError, call, responds};
use crate::decode::{DecodeError, FromJson, KeyedValues, has, has_opt, required, optional};
use crate::json::Json;
use crate::list::List;
use crate::resources::{Currency, Timestamp};
use crate::resources::source::Source;

verus! {

broadcast use crate::json::lemma_entry_of_push;

/// One fee within a balance transaction.
#[derive(Debug)]
pub struct FeeDetails {
    pub amount: u64,
    pub application: String,
    pub currency: Currency,
    pub description: String,
    pub fee_type: String,
}

impl FromJson for FeeDetails {
    open spec fn decodes_as(j: Json, v: FeeDetails) -> bool {
        j is Obj
        && has(j, "amount"@, v.amount)
        && has(j, "application"@, v.application)
        && has(j, "currency"@, v.currency)
        && has(j, "description"@, v.description)
        && has(j, "type"@, v.fee_type)
    }

    fn from_json(j: &Json) -> (r: Result<FeeDetails, DecodeError>) {
        if !j.is_object() {
            return Err(DecodeError::Malformed);
        }
        let amount = required::<u64>(j, "amount")?;
        let application = required::<String>(j, "application")?;
        let currency = required::<Currency>(j, "currency")?;
        let description = required::<String>(j, "description")?;
        let fee_type = required::<String>(j, "type")?;
        Ok(FeeDetails {
            amount,
            application,
            currency,
            description,
            fee_type,
        })
    }
}

/// The balance of the current account.
#[derive(Debug)]
pub struct Balance {
    pub object: String,
    pub available: Vec<BalanceCurrency>,
    pub connect_reserved: Option<Vec<Json>>,
    pub livemode: bool,
    pub pending: Vec<BalanceCurrency>,
}

impl FromJson for Balance {
    open spec fn decodes_as(j: Json, v: Balance) -> bool {
        j is Obj
        && has(j, "object"@, v.object)
        && has(j, "available"@, v.available)
        && has_opt(j, "connect_reserved"@, v.connect_reserved)
        && has(j, "livemode"@, v.livemode)
        && has(j, "pending"@, v.pending)
    }

    fn from_json(j: &Json) -> (r: Result<Balance, DecodeError>) {
        if !j.is_object() {
            return Err(DecodeError::Malformed);
        }
        let object = required::<String>(j, "object")?;
        let available = required::<Vec<BalanceCurrency>>(j, "available")?;
        let connect_reserved = optional::<Vec<Json>>(j, "connect_reserved")?;
        let livemode = required::<bool>(j, "livemode")?;
        let pending = required::<Vec<BalanceCurrency>>(j, "pending")?;
        Ok(Balance {
            object,
            available,
            connect_reserved,
            livemode,
            pending,
        })
    }
}

/// The funds held in one currency, split by source type.
#[derive(Debug)]
pub struct BalanceCurrency {
    pub currency: String,
    pub amount: u64,
    pub source_types: KeyedValues<u64>,
}

impl FromJson for BalanceCurrency {
    open spec fn decodes_as(j: Json, v: BalanceCurrency) -> bool {
        j is Obj
        && has(j, "currency"@, v.currency)
        && has(j, "amount"@, v.amount)
        && has(j, "source_types"@, v.source_types)
    }

    fn from_json(j: &Json) -> (r: Result<BalanceCurrency, DecodeError>) {
        if !j.is_object() {
            return Err(DecodeError::Malformed);
        }
        let currency = required::<String>(j, "currency")?;
        let amount = required::<u64>(j, "amount")?;
        let source_types = required::<KeyedValues<u64>>(j, "source_types")?;
        Ok(BalanceCurrency {
            currency,
            amount,
            source_types,
        })
    }
}

/// One movement of funds in or out of the balance.
#[derive(Debug)]
pub struct BalanceTransaction {
    pub id: String,
    pub object: String,
    pub amount: u64,
    pub available_on: Timestamp,
    pub created: Timestamp,
    pub currency: Currency,
    pub description: String,
    pub fee: u64,
    pub fee_details: List<FeeDetails>,
    pub net: u64,
    pub source: Source,
    pub status: String,
    pub transaction_type: String,
}

impl FromJson for BalanceTransaction {
    open spec fn decodes_as(j: Json, v: BalanceTransaction) -> bool {
        j is Obj
        && has(j, "id"@, v.id)
        && has(j, "object"@, v.object)
        && has(j, "amount"@, v.amount)
        && has(j, "available_on"@, v.available_on)
        && has(j, "created"@, v.created)
        && has(j, "currency"@, v.currency)
        && has(j, "description"@, v.description)
        && has(j, "fee"@, v.fee)
        && has(j, "fee_details"@, v.fee_details)
        && has(j, "net"@, v.net)
        && has(j, "source"@, v.source)
        && has(j, "status"@, v.status)
        && has(j, "type"@, v.transaction_type)
    }

    fn from_json(j: &Json) -> (r: Result<BalanceTransaction, DecodeError>) {
        if !j.is_object() {
            return Err(DecodeError::Malformed);
        }
        let id = required::<String>(j, "id")?;
        let object = required::<String>(j, "object")?;
        let amount = required::<u64>(j, "amount")?;
        let available_on = required::<Timestamp>(j, "available_on")?;
        let created = required::<Timestamp>(j, "created")?;
        let currency = required::<Currency>(j, "currency")?;
        let description = required::<String>(j, "description")?;
        let fee = required::<u64>(j, "fee")?;
        let fee_details = required::<List<FeeDetails>>(j, "fee_details")?;
        let net = required::<u64>(j, "net")?;
        let source = required::<Source>(j, "source")?;
        let status = required::<String>(j, "status")?;
        let transaction_type = required::<String>(j, "type")?;
        Ok(BalanceTransaction {
            id,
            object,
            amount,
            available_on,
            created,
            currency,
            description,
            fee,
            fee_details,
            net,
            source,
            status,
            transaction_type,
        })
    }
}

impl Balance {
    /// The request that fetches the balance of the current account.
    pub fn retrieve_request() -> (r: Request)
        ensures
            r.method == Method::Get,
            r.path@ == "/balance"@,
            r.body is None,
    {
        let path = "/balance".to_owned();
        Request { method: Method::Get, path, body: None }
    }

    /// Sends the request that fetches the balance of the current account, and reads the answer.
    pub fn retrieve<C: Client>(client: &C) -> (r: Result<Balance, Error>)
        ensures
            exists|raw: Result<Json, TransportError>| responds(raw, r),
    {
        call(client, &Self::retrieve_request())
    }

}

} // verus!
