//! Connected accounts: their parameters, their records and their calls.

use vstd::prelude::*;
use crate::client::{Client, Error, Method, Request, TransportError, call, path_with, responds};
use crate::decode::{DecodeError, FromJson, Metadata, has, has_opt, required, optional};
use crate::encode::{ToJson, enc, enc_opt, put, put_opt, with_key};
use crate::json::{Json, field, keys, keys_of};
use crate::list::List;
use crate::resources::Timestamp;
use crate::resources::bank_account::BankAccount;

verus! {

broadcast use crate::json::lemma_entry_of_push;

/// When the account declines charges on its own.
#[derive(Debug)]
pub struct DeclineChargeDetails {
    pub avs_failure: Option<bool>,
    pub cvc_failure: Option<bool>,
}

impl DeclineChargeDetails {
    /// The keys written, in order: the required ones always, the optional
    /// ones only when set.
    pub open spec fn wire_keys(&self) -> Seq<Seq<char>> {
        let s = Seq::<Seq<char>>::empty();
        let s = with_key(s, "avs_failure"@, self.avs_failure is Some);
        let s = with_key(s, "cvc_failure"@, self.cvc_failure is Some);
        s
    }
}

impl ToJson for DeclineChargeDetails {
    open spec fn encodes_as(&self, j: Json) -> bool {
        j is Obj
        && keys_of(j) == self.wire_keys()
        && enc_opt(j, "avs_failure"@, self.avs_failure)
        && enc_opt(j, "cvc_failure"@, self.cvc_failure)
    }

    fn to_json(&self) -> (r: Json) {
        let mut es: Vec<(String, Json)> = Vec::new();
        proof {
            assert(keys(es@) =~= Seq::<Seq<char>>::empty());
        }
        put_opt(&mut es, "avs_failure", &self.avs_failure);
        put_opt(&mut es, "cvc_failure", &self.cvc_failure);
        proof {
            reveal_strlit("avs_failure");
            assert("avs_failure"@.len() == 11);
            reveal_strlit("cvc_failure");
            assert("cvc_failure"@.len() == 11);
            assert("avs_failure"@[0] == 'a' && "cvc_failure"@[0] == 'c');
        }
        Json::Obj(es)
    }
}

impl FromJson for DeclineChargeDetails {
    open spec fn decodes_as(j: Json, v: DeclineChargeDetails) -> bool {
        j is Obj
        && has_opt(j, "avs_failure"@, v.avs_failure)
        && has_opt(j, "cvc_failure"@, v.cvc_failure)
    }

    fn from_json(j: &Json) -> (r: Result<DeclineChargeDetails, DecodeError>) {
        if !j.is_object() {
            return Err(DecodeError::Malformed);
        }
        let avs_failure = optional::<bool>(j, "avs_failure")?;
        let cvc_failure = optional::<bool>(j, "cvc_failure")?;
        Ok(DeclineChargeDetails {
            avs_failure,
            cvc_failure,
        })
    }
}

/// How often the account is paid out.
#[derive(Debug)]
pub struct PayoutScheduleDetails {
    pub delay_days: u64,
    pub interval: String,
    pub monthly_anchor: Option<u64>,
    pub weekly_anchor: Option<String>,
}

impl PayoutScheduleDetails {
    /// The keys written, in order: the required ones always, the optional
    /// ones only when set.
    pub open spec fn wire_keys(&self) -> Seq<Seq<char>> {
        let s = Seq::<Seq<char>>::empty();
        let s = s.push("delay_days"@);
        let s = s.push("interval"@);
        let s = with_key(s, "monthly_anchor"@, self.monthly_anchor is Some);
        let s = with_key(s, "weekly_anchor"@, self.weekly_anchor is Some);
        s
    }
}

impl ToJson for PayoutScheduleDetails {
    open spec fn encodes_as(&self, j: Json) -> bool {
        j is Obj
        && keys_of(j) == self.wire_keys()
        && enc(j, "delay_days"@, self.delay_days)
        && enc(j, "interval"@, self.interval)
        && enc_opt(j, "monthly_anchor"@, self.monthly_anchor)
        && enc_opt(j, "weekly_anchor"@, self.weekly_anchor)
    }

    fn to_json(&self) -> (r: Json) {
        let mut es: Vec<(String, Json)> = Vec::new();
        proof {
            assert(keys(es@) =~= Seq::<Seq<char>>::empty());
        }
        put(&mut es, "delay_days", &self.delay_days);
        put(&mut es, "interval", &self.interval);
        put_opt(&mut es, "monthly_anchor", &self.monthly_anchor);
        put_opt(&mut es, "weekly_anchor", &self.weekly_anchor);
        proof {
            reveal_strlit("delay_days");
            assert("delay_days"@.len() == 10);
            reveal_strlit("interval");
            assert("interval"@.len() == 8);
            reveal_strlit("monthly_anchor");
            assert("monthly_anchor"@.len() == 14);
            reveal_strlit("weekly_anchor");
            assert("weekly_anchor"@.len() == 13);
        }
        Json::Obj(es)
    }
}

impl FromJson for PayoutScheduleDetails {
    open spec fn decodes_as(j: Json, v: PayoutScheduleDetails) -> bool {
        j is Obj
        && has(j, "delay_days"@, v.delay_days)
        && has(j, "interval"@, v.interval)
        && has_opt(j, "monthly_anchor"@, v.monthly_anchor)
        && has_opt(j, "weekly_anchor"@, v.weekly_anchor)
    }

    fn from_json(j: &Json) -> (r: Result<PayoutScheduleDetails, DecodeError>) {
        if !j.is_object() {
            return Err(DecodeError::Malformed);
        }
        let delay_days = required::<u64>(j, "delay_days")?;
        let interval = required::<String>(j, "interval")?;
        let monthly_anchor = optional::<u64>(j, "monthly_anchor")?;
        let weekly_anchor = optional::<String>(j, "weekly_anchor")?;
        Ok(PayoutScheduleDetails {
            delay_days,
            interval,
            monthly_anchor,
            weekly_anchor,
        })
    }
}

/// Who accepted the terms of service, and when.
#[derive(Debug)]
pub struct TOSAcceptanceDetails {
    pub date: Option<Timestamp>,
    pub ip: Option<String>,
    pub user_agent: Option<String>,
}

impl TOSAcceptanceDetails {
    /// The keys written, in order: the required ones always, the optional
    /// ones only when set.
    pub open spec fn wire_keys(&self) -> Seq<Seq<char>> {
        let s = Seq::<Seq<char>>::empty();
        let s = with_key(s, "date"@, self.date is Some);
        let s = with_key(s, "ip"@, self.ip is Some);
        let s = with_key(s, "user_agent"@, self.user_agent is Some);
        s
    }
}

impl ToJson for TOSAcceptanceDetails {
    open spec fn encodes_as(&self, j: Json) -> bool {
        j is Obj
        && keys_of(j) == self.wire_keys()
        && enc_opt(j, "date"@, self.date)
        && enc_opt(j, "ip"@, self.ip)
        && enc_opt(j, "user_agent"@, self.user_agent)
    }

    fn to_json(&self) -> (r: Json) {
        let mut es: Vec<(String, Json)> = Vec::new();
        proof {
            assert(keys(es@) =~= Seq::<Seq<char>>::empty());
        }
        put_opt(&mut es, "date", &self.date);
        put_opt(&mut es, "ip", &self.ip);
        put_opt(&mut es, "user_agent", &self.user_agent);
        proof {
            reveal_strlit("date");
            assert("date"@.len() == 4);
            reveal_strlit("ip");
            assert("ip"@.len() == 2);
            reveal_strlit("user_agent");
            assert("user_agent"@.len() == 10);
        }
        Json::Obj(es)
    }
}

impl FromJson for TOSAcceptanceDetails {
    open spec fn decodes_as(j: Json, v: TOSAcceptanceDetails) -> bool {
        j is Obj
        && has_opt(j, "date"@, v.date)
        && has_opt(j, "ip"@, v.ip)
        && has_opt(j, "user_agent"@, v.user_agent)
    }

    fn from_json(j: &Json) -> (r: Result<TOSAcceptanceDetails, DecodeError>) {
        if !j.is_object() {
            return Err(DecodeError::Malformed);
        }
        let date = optional::<Timestamp>(j, "date")?;
        let ip = optional::<String>(j, "ip")?;
        let user_agent = optional::<String>(j, "user_agent")?;
        Ok(TOSAcceptanceDetails {
            date,
            ip,
            user_agent,
        })
    }
}

/// The parameters of an account's creation or update.
#[derive(Debug)]
pub struct AccountParams {
    pub country: Option<String>,
    pub email: Option<String>,
    pub account_type: Option<String>,
    pub external_account: Option<String>,
    pub metadata: Option<Metadata>,
    pub tos_acceptance: Option<TOSAcceptanceDetails>,
}

impl AccountParams {
    /// The keys written, in order: the required ones always, the optional
    /// ones only when set.
    pub open spec fn wire_keys(&self) -> Seq<Seq<char>> {
        let s = Seq::<Seq<char>>::empty();
        let s = with_key(s, "country"@, self.country is Some);
        let s = with_key(s, "email"@, self.email is Some);
        let s = with_key(s, "type"@, self.account_type is Some);
        let s = with_key(s, "external_account"@, self.external_account is Some);
        let s = with_key(s, "metadata"@, self.metadata is Some);
        let s = with_key(s, "tos_acceptance"@, self.tos_acceptance is Some);
        s
    }
}

impl ToJson for AccountParams {
    open spec fn encodes_as(&self, j: Json) -> bool {
        j is Obj
        && keys_of(j) == self.wire_keys()
        && enc_opt(j, "country"@, self.country)
        && enc_opt(j, "email"@, self.email)
        && enc_opt(j, "type"@, self.account_type)
        && enc_opt(j, "external_account"@, self.external_account)
        && enc_opt(j, "metadata"@, self.metadata)
        && enc_opt(j, "tos_acceptance"@, self.tos_acceptance)
    }

    fn to_json(&self) -> (r: Json) {
        let mut es: Vec<(String, Json)> = Vec::new();
        proof {
            assert(keys(es@) =~= Seq::<Seq<char>>::empty());
        }
        put_opt(&mut es, "country", &self.country);
        put_opt(&mut es, "email", &self.email);
        put_opt(&mut es, "type", &self.account_type);
        put_opt(&mut es, "external_account", &self.external_account);
        put_opt(&mut es, "metadata", &self.metadata);
        put_opt(&mut es, "tos_acceptance", &self.tos_acceptance);
        proof {
            reveal_strlit("country");
            assert("country"@.len() == 7);
            reveal_strlit("email");
            assert("email"@.len() == 5);
            reveal_strlit("type");
            assert("type"@.len() == 4);
            reveal_strlit("external_account");
            assert("external_account"@.len() == 16);
            reveal_strlit("metadata");
            assert("metadata"@.len() == 8);
            reveal_strlit("tos_acceptance");
            assert("tos_acceptance"@.len() == 14);
        }
        Json::Obj(es)
    }
}

/// A connected account as the server reports it.
#[derive(Debug)]
pub struct Account {
    pub id: String,
    pub object: String,
    pub business_name: Option<String>,
    pub business_url: Option<String>,
    pub charges_enabled: bool,
    pub country: String,
    pub debit_negative_balances: Option<bool>,
    pub decline_charge_on: Option<DeclineChargeDetails>,
    pub default_currency: String,
    pub details_submitted: bool,
    pub display_name: Option<String>,
    pub email: String,
    pub external_accounts: List<BankAccount>,
    pub legal_entity: Option<Json>,
    pub metadata: Metadata,
    pub payout_schedule: Option<PayoutScheduleDetails>,
    pub payout_statement_descriptor: Option<String>,
    pub payouts_enabled: bool,
    pub product_description: Option<String>,
    pub statement_descriptor: String,
    pub support_email: Option<String>,
    pub support_phone: Option<String>,
    pub timezone: String,
    pub tos_acceptance: Option<TOSAcceptanceDetails>,
    pub account_type: Option<String>,
    pub verification: Option<Json>,
}

impl FromJson for Account {
    open spec fn decodes_as(j: Json, v: Account) -> bool {
        j is Obj
        && has(j, "id"@, v.id)
        && has(j, "object"@, v.object)
        && has_opt(j, "business_name"@, v.business_name)
        && has_opt(j, "business_url"@, v.business_url)
        && has(j, "charges_enabled"@, v.charges_enabled)
        && has(j, "country"@, v.country)
        && has_opt(j, "debit_negative_balances"@, v.debit_negative_balances)
        && has_opt(j, "decline_charge_on"@, v.decline_charge_on)
        && has(j, "default_currency"@, v.default_currency)
        && has(j, "details_submitted"@, v.details_submitted)
        && has_opt(j, "display_name"@, v.display_name)
        && has(j, "email"@, v.email)
        && has(j, "external_accounts"@, v.external_accounts)
        && has_opt(j, "legal_entity"@, v.legal_entity)
        && has(j, "metadata"@, v.metadata)
        && has_opt(j, "payout_schedule"@, v.payout_schedule)
        && has_opt(j, "payout_statement_descriptor"@, v.payout_statement_descriptor)
        && has(j, "payouts_enabled"@, v.payouts_enabled)
        && has_opt(j, "product_description"@, v.product_description)
        && has(j, "statement_descriptor"@, v.statement_descriptor)
        && has_opt(j, "support_email"@, v.support_email)
        && has_opt(j, "support_phone"@, v.support_phone)
        && has(j, "timezone"@, v.timezone)
        && has_opt(j, "tos_acceptance"@, v.tos_acceptance)
        && has_opt(j, "type"@, v.account_type)
        && has_opt(j, "verification"@, v.verification)
    }

    fn from_json(j: &Json) -> (r: Result<Account, DecodeError>) {
        if !j.is_object() {
            return Err(DecodeError::Malformed);
        }
        let id = required::<String>(j, "id")?;
        let object = required::<String>(j, "object")?;
        let business_name = optional::<String>(j, "business_name")?;
        let business_url = optional::<String>(j, "business_url")?;
        let charges_enabled = required::<bool>(j, "charges_enabled")?;
        let country = required::<String>(j, "country")?;
        let debit_negative_balances = optional::<bool>(j, "debit_negative_balances")?;
        let decline_charge_on = optional::<DeclineChargeDetails>(j, "decline_charge_on")?;
        let default_currency = required::<String>(j, "default_currency")?;
        let details_submitted = required::<bool>(j, "details_submitted")?;
        let display_name = optional::<String>(j, "display_name")?;
        let email = required::<String>(j, "email")?;
        let external_accounts = required::<List<BankAccount>>(j, "external_accounts")?;
        let legal_entity = optional::<Json>(j, "legal_entity")?;
        let metadata = required::<Metadata>(j, "metadata")?;
        let payout_schedule = optional::<PayoutScheduleDetails>(j, "payout_schedule")?;
        let payout_statement_descriptor = optional::<String>(j, "payout_statement_descriptor")?;
        let payouts_enabled = required::<bool>(j, "payouts_enabled")?;
        let product_description = optional::<String>(j, "product_description")?;
        let statement_descriptor = required::<String>(j, "statement_descriptor")?;
        let support_email = optional::<String>(j, "support_email")?;
        let support_phone = optional::<String>(j, "support_phone")?;
        let timezone = required::<String>(j, "timezone")?;
        let tos_acceptance = optional::<TOSAcceptanceDetails>(j, "tos_acceptance")?;
        let account_type = optional::<String>(j, "type")?;
        let verification = optional::<Json>(j, "verification")?;
        Ok(Account {
            id,
            object,
            business_name,
            business_url,
            charges_enabled,
            country,
            debit_negative_balances,
            decline_charge_on,
            default_currency,
            details_submitted,
            display_name,
            email,
            external_accounts,
            legal_entity,
            metadata,
            payout_schedule,
            payout_statement_descriptor,
            payouts_enabled,
            product_description,
            statement_descriptor,
            support_email,
            support_phone,
            timezone,
            tos_acceptance,
            account_type,
            verification,
        })
    }
}

/// With every member unset, an account's parameters are written as an empty
/// object.
pub proof fn lemma_account_params_unset_omitted(p: AccountParams, j: Json)
    requires
        p.country is None,
        p.email is None,
        p.account_type is None,
        p.external_account is None,
        p.metadata is None,
        p.tos_acceptance is None,
        p.encodes_as(j),
    ensures
        keys_of(j) == Seq::<Seq<char>>::empty(),
        field(j, "country"@) is None,
        field(j, "email"@) is None,
        field(j, "type"@) is None,
        field(j, "external_account"@) is None,
        field(j, "metadata"@) is None,
        field(j, "tos_acceptance"@) is None,
{
}

/// Each member of an account's parameters that is set is written under its key
/// as its own wire form, whatever the other members hold.
pub proof fn lemma_account_params_set_present(p: AccountParams, j: Json)
    requires
        p.encodes_as(j),
    ensures
        p.country matches Some(v) ==> enc(j, "country"@, v),
        p.email matches Some(v) ==> enc(j, "email"@, v),
        p.account_type matches Some(v) ==> enc(j, "type"@, v),
        p.external_account matches Some(v) ==> enc(j, "external_account"@, v),
        p.metadata matches Some(v) ==> enc(j, "metadata"@, v),
        p.tos_acceptance matches Some(v) ==> enc(j, "tos_acceptance"@, v),
{
}

/// With every member unset, terms-of-service acceptance details are written
/// as an empty object.
pub proof fn lemma_tos_acceptance_unset_omitted(p: TOSAcceptanceDetails, j: Json)
    requires
        p.date is None,
        p.ip is None,
        p.user_agent is None,
        p.encodes_as(j),
    ensures
        keys_of(j) == Seq::<Seq<char>>::empty(),
        field(j, "date"@) is None,
        field(j, "ip"@) is None,
        field(j, "user_agent"@) is None,
{
}

/// With both anchors unset, a payout schedule is written as exactly
/// `delay_days` and `interval`.
pub proof fn lemma_payout_schedule_unset_omitted(p: PayoutScheduleDetails, j: Json)
    requires
        p.monthly_anchor is None,
        p.weekly_anchor is None,
        p.encodes_as(j),
    ensures
        keys_of(j) == Seq::<Seq<char>>::empty().push("delay_days"@).push("interval"@),
        field(j, "monthly_anchor"@) is None,
        field(j, "weekly_anchor"@) is None,
{
}

/// With both flags unset, decline settings are written as an empty object.
pub proof fn lemma_decline_charge_unset_omitted(p: DeclineChargeDetails, j: Json)
    requires
        p.avs_failure is None,
        p.cvc_failure is None,
        p.encodes_as(j),
    ensures
        keys_of(j) == Seq::<Seq<char>>::empty(),
        field(j, "avs_failure"@) is None,
        field(j, "cvc_failure"@) is None,
{
}

/// Each decline flag that is set is written under its key, whatever the other holds.
pub proof fn lemma_decline_charge_set_present(p: DeclineChargeDetails, j: Json)
    requires
        p.encodes_as(j),
    ensures
        p.avs_failure matches Some(v) ==> enc(j, "avs_failure"@, v),
        p.cvc_failure matches Some(v) ==> enc(j, "cvc_failure"@, v),
{
}

/// Each acceptance detail that is set is written under its key, whatever the
/// others hold.
pub proof fn lemma_tos_acceptance_set_present(p: TOSAcceptanceDetails, j: Json)
    requires
        p.encodes_as(j),
    ensures
        p.date matches Some(v) ==> enc(j, "date"@, v),
        p.ip matches Some(v) ==> enc(j, "ip"@, v),
        p.user_agent matches Some(v) ==> enc(j, "user_agent"@, v),
{
}

/// Each anchor that is set is written under its key, whatever the other holds.
pub proof fn lemma_payout_schedule_set_present(p: PayoutScheduleDetails, j: Json)
    requires
        p.encodes_as(j),
    ensures
        p.monthly_anchor matches Some(v) ==> enc(j, "monthly_anchor"@, v),
        p.weekly_anchor matches Some(v) ==> enc(j, "weekly_anchor"@, v),
{
}

impl Account {
    /// The request that creates an account.
    pub fn create_request(params: &AccountParams) -> (r: Request)
        ensures
            r.method == Method::Post,
            r.path@ == "/accounts"@,
            r.body matches Some(b) && params.encodes_as(b),
    {
        let path = "/accounts".to_owned();
        Request { method: Method::Post, path, body: Some(params.to_json()) }
    }

    /// Sends the request that creates an account, and reads the answer.
    pub fn create<C: Client>(client: &C, params: AccountParams) -> (r: Result<Account, Error>)
        ensures
            exists|raw: Result<Json, TransportError>| responds(raw, r),
    {
        call(client, &Self::create_request(&params))
    }

    /// The request that fetches the account `account_id`.
    pub fn retrieve_request(account_id: &str) -> (r: Request)
        ensures
            r.method == Method::Get,
            r.path@ == "/accounts/"@ + account_id@ + ""@,
            r.body is None,
    {
        let path = path_with("/accounts/", account_id, "");
        Request { method: Method::Get, path, body: None }
    }

    /// Sends the request that fetches the account `account_id`, and reads the answer.
    pub fn retrieve<C: Client>(client: &C, account_id: &str) -> (r: Result<Account, Error>)
        ensures
            exists|raw: Result<Json, TransportError>| responds(raw, r),
    {
        call(client, &Self::retrieve_request(account_id))
    }

    /// The request that changes the account `account_id`.
    pub fn update_request(account_id: &str, params: &AccountParams) -> (r: Request)
        ensures
            r.method == Method::Post,
            r.path@ == "/accounts/"@ + account_id@ + ""@,
            r.body matches Some(b) && params.encodes_as(b),
    {
        let path = path_with("/accounts/", account_id, "");
        Request { method: Method::Post, path, body: Some(params.to_json()) }
    }

    /// Sends the request that changes the account `account_id`, and reads the answer.
    pub fn update<C: Client>(client: &C, account_id: &str, params: AccountParams) -> (r: Result<Account, Error>)
        ensures
            exists|raw: Result<Json, TransportError>| responds(raw, r),
    {
        call(client, &Self::update_request(account_id, &params))
    }

}

} // verus!
