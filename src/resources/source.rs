//! Payment sources: a tagged union over a card and a generic source object.

use vstd::prelude::*;
use crate::client::{Client, Error, Method, Request, TransportError, call, path_with, responds};
use crate::decode::{DecodeError, FromJson, Metadata, has, has_opt, required, optional};
use crate::encode::{ToJson, enc, enc_opt, put, put_opt, with_key};
use crate::json::{Json, field, keys, keys_of, str_member};
use crate::resources::{Currency, Timestamp};

verus! {

broadcast use crate::json::lemma_entry_of_push;

/// A postal address as a request carries it.
#[derive(Debug)]
pub struct Address {
    pub line1: String,
    pub line2: Option<String>,
    pub city: Option<String>,
    pub state: Option<String>,
    pub postal_code: Option<String>,
    pub country: Option<String>,
}

impl Address {
    /// The keys written, in order: the required ones always, the optional
    /// ones only when set.
    pub open spec fn wire_keys(&self) -> Seq<Seq<char>> {
        let s = Seq::<Seq<char>>::empty();
        let s = s.push("line1"@);
        let s = with_key(s, "line2"@, self.line2 is Some);
        let s = with_key(s, "city"@, self.city is Some);
        let s = with_key(s, "state"@, self.state is Some);
        let s = with_key(s, "postal_code"@, self.postal_code is Some);
        let s = with_key(s, "country"@, self.country is Some);
        s
    }
}

impl ToJson for Address {
    open spec fn encodes_as(&self, j: Json) -> bool {
        j is Obj
        && keys_of(j) == self.wire_keys()
        && enc(j, "line1"@, self.line1)
        && enc_opt(j, "line2"@, self.line2)
        && enc_opt(j, "city"@, self.city)
        && enc_opt(j, "state"@, self.state)
        && enc_opt(j, "postal_code"@, self.postal_code)
        && enc_opt(j, "country"@, self.country)
    }

    fn to_json(&self) -> (r: Json) {
        let mut es: Vec<(String, Json)> = Vec::new();
        proof {
            assert(keys(es@) =~= Seq::<Seq<char>>::empty());
        }
        put(&mut es, "line1", &self.line1);
        put_opt(&mut es, "line2", &self.line2);
        put_opt(&mut es, "city", &self.city);
        put_opt(&mut es, "state", &self.state);
        put_opt(&mut es, "postal_code", &self.postal_code);
        put_opt(&mut es, "country", &self.country);
        proof {
            reveal_strlit("line1");
            assert("line1"@.len() == 5);
            reveal_strlit("line2");
            assert("line2"@.len() == 5);
            reveal_strlit("city");
            assert("city"@.len() == 4);
            reveal_strlit("state");
            assert("state"@.len() == 5);
            reveal_strlit("postal_code");
            assert("postal_code"@.len() == 11);
            reveal_strlit("country");
            assert("country"@.len() == 7);
            assert("line1"@[4] == '1' && "line2"@[4] == '2');
            assert("line1"@[0] == 'l' && "state"@[0] == 's');
            assert("line2"@[0] == 'l' && "state"@[0] == 's');
        }
        Json::Obj(es)
    }
}

/// The owner of a source, as a request describes it.
#[derive(Debug)]
pub struct OwnerParams {
    pub address: Option<Address>,
    pub email: Option<String>,
    pub name: Option<String>,
    pub phone: Option<String>,
}

impl OwnerParams {
    /// The keys written, in order: the required ones always, the optional
    /// ones only when set.
    pub open spec fn wire_keys(&self) -> Seq<Seq<char>> {
        let s = Seq::<Seq<char>>::empty();
        let s = with_key(s, "address"@, self.address is Some);
        let s = with_key(s, "email"@, self.email is Some);
        let s = with_key(s, "name"@, self.name is Some);
        let s = with_key(s, "phone"@, self.phone is Some);
        s
    }
}

impl ToJson for OwnerParams {
    open spec fn encodes_as(&self, j: Json) -> bool {
        j is Obj
        && keys_of(j) == self.wire_keys()
        && enc_opt(j, "address"@, self.address)
        && enc_opt(j, "email"@, self.email)
        && enc_opt(j, "name"@, self.name)
        && enc_opt(j, "phone"@, self.phone)
    }

    fn to_json(&self) -> (r: Json) {
        let mut es: Vec<(String, Json)> = Vec::new();
        proof {
            assert(keys(es@) =~= Seq::<Seq<char>>::empty());
        }
        put_opt(&mut es, "address", &self.address);
        put_opt(&mut es, "email", &self.email);
        put_opt(&mut es, "name", &self.name);
        put_opt(&mut es, "phone", &self.phone);
        proof {
            reveal_strlit("address");
            assert("address"@.len() == 7);
            reveal_strlit("email");
            assert("email"@.len() == 5);
            reveal_strlit("name");
            assert("name"@.len() == 4);
            reveal_strlit("phone");
            assert("phone"@.len() == 5);
            assert("email"@[0] == 'e' && "phone"@[0] == 'p');
        }
        Json::Obj(es)
    }
}

/// Where the customer returns after a redirect flow.
#[derive(Debug)]
pub struct RedirectParams {
    pub return_url: String,
}

impl RedirectParams {
    /// The keys written, in order: the required ones always, the optional
    /// ones only when set.
    pub open spec fn wire_keys(&self) -> Seq<Seq<char>> {
        let s = Seq::<Seq<char>>::empty();
        let s = s.push("return_url"@);
        s
    }
}

impl ToJson for RedirectParams {
    open spec fn encodes_as(&self, j: Json) -> bool {
        j is Obj
        && keys_of(j) == self.wire_keys()
        && enc(j, "return_url"@, self.return_url)
    }

    fn to_json(&self) -> (r: Json) {
        let mut es: Vec<(String, Json)> = Vec::new();
        proof {
            assert(keys(es@) =~= Seq::<Seq<char>>::empty());
        }
        put(&mut es, "return_url", &self.return_url);
        proof {
            reveal_strlit("return_url");
            assert("return_url"@.len() == 10);
        }
        Json::Obj(es)
    }
}

/// The parameters of a source's creation or update.
#[derive(Debug)]
pub struct SourceParams {
    pub source_type: Option<String>,
    pub amount: Option<u64>,
    pub currency: Option<Currency>,
    pub flow: Option<String>,
    pub metadata: Option<Metadata>,
    pub owner: Option<OwnerParams>,
    pub redirect: Option<RedirectParams>,
    pub token: Option<String>,
    pub usage: Option<String>,
}

impl SourceParams {
    /// The keys written, in order: the required ones always, the optional
    /// ones only when set.
    pub open spec fn wire_keys(&self) -> Seq<Seq<char>> {
        let s = Seq::<Seq<char>>::empty();
        let s = with_key(s, "type"@, self.source_type is Some);
        let s = with_key(s, "amount"@, self.amount is Some);
        let s = with_key(s, "currency"@, self.currency is Some);
        let s = with_key(s, "flow"@, self.flow is Some);
        let s = with_key(s, "metadata"@, self.metadata is Some);
        let s = with_key(s, "owner"@, self.owner is Some);
        let s = with_key(s, "redirect"@, self.redirect is Some);
        let s = with_key(s, "token"@, self.token is Some);
        let s = with_key(s, "usage"@, self.usage is Some);
        s
    }
}

impl ToJson for SourceParams {
    open spec fn encodes_as(&self, j: Json) -> bool {
        j is Obj
        && keys_of(j) == self.wire_keys()
        && enc_opt(j, "type"@, self.source_type)
        && enc_opt(j, "amount"@, self.amount)
        && enc_opt(j, "currency"@, self.currency)
        && enc_opt(j, "flow"@, self.flow)
        && enc_opt(j, "metadata"@, self.metadata)
        && enc_opt(j, "owner"@, self.owner)
        && enc_opt(j, "redirect"@, self.redirect)
        && enc_opt(j, "token"@, self.token)
        && enc_opt(j, "usage"@, self.usage)
    }

    fn to_json(&self) -> (r: Json) {
        let mut es: Vec<(String, Json)> = Vec::new();
        proof {
            assert(keys(es@) =~= Seq::<Seq<char>>::empty());
        }
        put_opt(&mut es, "type", &self.source_type);
        put_opt(&mut es, "amount", &self.amount);
        put_opt(&mut es, "currency", &self.currency);
        put_opt(&mut es, "flow", &self.flow);
        put_opt(&mut es, "metadata", &self.metadata);
        put_opt(&mut es, "owner", &self.owner);
        put_opt(&mut es, "redirect", &self.redirect);
        put_opt(&mut es, "token", &self.token);
        put_opt(&mut es, "usage", &self.usage);
        proof {
            reveal_strlit("type");
            assert("type"@.len() == 4);
            reveal_strlit("amount");
            assert("amount"@.len() == 6);
            reveal_strlit("currency");
            assert("currency"@.len() == 8);
            reveal_strlit("flow");
            assert("flow"@.len() == 4);
            reveal_strlit("metadata");
            assert("metadata"@.len() == 8);
            reveal_strlit("owner");
            assert("owner"@.len() == 5);
            reveal_strlit("redirect");
            assert("redirect"@.len() == 8);
            reveal_strlit("token");
            assert("token"@.len() == 5);
            reveal_strlit("usage");
            assert("usage"@.len() == 5);
            assert("type"@[0] == 't' && "flow"@[0] == 'f');
            assert("currency"@[0] == 'c' && "metadata"@[0] == 'm');
            assert("currency"@[0] == 'c' && "redirect"@[0] == 'r');
            assert("metadata"@[0] == 'm' && "redirect"@[0] == 'r');
            assert("owner"@[0] == 'o' && "token"@[0] == 't');
            assert("owner"@[0] == 'o' && "usage"@[0] == 'u');
            assert("token"@[0] == 't' && "usage"@[0] == 'u');
        }
        Json::Obj(es)
    }
}

/// A source owner's address as the server reports it.
#[derive(Debug)]
pub struct SourceAddress {
    pub line1: Option<String>,
    pub line2: Option<String>,
    pub city: Option<String>,
    pub state: Option<String>,
    pub postal_code: Option<String>,
    pub country: Option<String>,
}

impl FromJson for SourceAddress {
    open spec fn decodes_as(j: Json, v: SourceAddress) -> bool {
        j is Obj
        && has_opt(j, "line1"@, v.line1)
        && has_opt(j, "line2"@, v.line2)
        && has_opt(j, "city"@, v.city)
        && has_opt(j, "state"@, v.state)
        && has_opt(j, "postal_code"@, v.postal_code)
        && has_opt(j, "country"@, v.country)
    }

    fn from_json(j: &Json) -> (r: Result<SourceAddress, DecodeError>) {
        if !j.is_object() {
            return Err(DecodeError::Malformed);
        }
        let line1 = optional::<String>(j, "line1")?;
        let line2 = optional::<String>(j, "line2")?;
        let city = optional::<String>(j, "city")?;
        let state = optional::<String>(j, "state")?;
        let postal_code = optional::<String>(j, "postal_code")?;
        let country = optional::<String>(j, "country")?;
        Ok(SourceAddress {
            line1,
            line2,
            city,
            state,
            postal_code,
            country,
        })
    }
}

/// The owner of a source as the server reports it.
#[derive(Debug)]
pub struct SourceOwner {
    pub address: SourceAddress,
    pub email: Option<String>,
    pub name: Option<String>,
    pub phone: Option<String>,
    pub verified_address: Option<String>,
    pub verified_email: Option<String>,
    pub verified_name: Option<String>,
    pub verified_phone: Option<String>,
}

impl FromJson for SourceOwner {
    open spec fn decodes_as(j: Json, v: SourceOwner) -> bool {
        j is Obj
        && has(j, "address"@, v.address)
        && has_opt(j, "email"@, v.email)
        && has_opt(j, "name"@, v.name)
        && has_opt(j, "phone"@, v.phone)
        && has_opt(j, "verified_address"@, v.verified_address)
        && has_opt(j, "verified_email"@, v.verified_email)
        && has_opt(j, "verified_name"@, v.verified_name)
        && has_opt(j, "verified_phone"@, v.verified_phone)
    }

    fn from_json(j: &Json) -> (r: Result<SourceOwner, DecodeError>) {
        if !j.is_object() {
            return Err(DecodeError::Malformed);
        }
        let address = required::<SourceAddress>(j, "address")?;
        let email = optional::<String>(j, "email")?;
        let name = optional::<String>(j, "name")?;
        let phone = optional::<String>(j, "phone")?;
        let verified_address = optional::<String>(j, "verified_address")?;
        let verified_email = optional::<String>(j, "verified_email")?;
        let verified_name = optional::<String>(j, "verified_name")?;
        let verified_phone = optional::<String>(j, "verified_phone")?;
        Ok(SourceOwner {
            address,
            email,
            name,
            phone,
            verified_address,
            verified_email,
            verified_name,
            verified_phone,
        })
    }
}

/// The card details inside a card-backed source; unlike a card, it has no `id`.
#[derive(Debug)]
pub struct SourceCard {
    pub address_city: Option<String>,
    pub address_country: Option<String>,
    pub address_line1: Option<String>,
    pub address_line1_check: Option<String>,
    pub address_line2: Option<String>,
    pub address_state: Option<String>,
    pub address_zip: Option<String>,
    pub address_zip_check: Option<String>,
    pub brand: String,
    pub country: String,
    pub cvc_check: Option<String>,
    pub exp_month: u32,
    pub exp_year: u32,
    pub fingerprint: String,
    pub funding: String,
    pub last4: String,
}

impl FromJson for SourceCard {
    open spec fn decodes_as(j: Json, v: SourceCard) -> bool {
        j is Obj
        && has_opt(j, "address_city"@, v.address_city)
        && has_opt(j, "address_country"@, v.address_country)
        && has_opt(j, "address_line1"@, v.address_line1)
        && has_opt(j, "address_line1_check"@, v.address_line1_check)
        && has_opt(j, "address_line2"@, v.address_line2)
        && has_opt(j, "address_state"@, v.address_state)
        && has_opt(j, "address_zip"@, v.address_zip)
        && has_opt(j, "address_zip_check"@, v.address_zip_check)
        && has(j, "brand"@, v.brand)
        && has(j, "country"@, v.country)
        && has_opt(j, "cvc_check"@, v.cvc_check)
        && has(j, "exp_month"@, v.exp_month)
        && has(j, "exp_year"@, v.exp_year)
        && has(j, "fingerprint"@, v.fingerprint)
        && has(j, "funding"@, v.funding)
        && has(j, "last4"@, v.last4)
    }

    fn from_json(j: &Json) -> (r: Result<SourceCard, DecodeError>) {
        if !j.is_object() {
            return Err(DecodeError::Malformed);
        }
        let address_city = optional::<String>(j, "address_city")?;
        let address_country = optional::<String>(j, "address_country")?;
        let address_line1 = optional::<String>(j, "address_line1")?;
        let address_line1_check = optional::<String>(j, "address_line1_check")?;
        let address_line2 = optional::<String>(j, "address_line2")?;
        let address_state = optional::<String>(j, "address_state")?;
        let address_zip = optional::<String>(j, "address_zip")?;
        let address_zip_check = optional::<String>(j, "address_zip_check")?;
        let brand = required::<String>(j, "brand")?;
        let country = required::<String>(j, "country")?;
        let cvc_check = optional::<String>(j, "cvc_check")?;
        let exp_month = required::<u32>(j, "exp_month")?;
        let exp_year = required::<u32>(j, "exp_year")?;
        let fingerprint = required::<String>(j, "fingerprint")?;
        let funding = required::<String>(j, "funding")?;
        let last4 = required::<String>(j, "last4")?;
        Ok(SourceCard {
            address_city,
            address_country,
            address_line1,
            address_line1_check,
            address_line2,
            address_state,
            address_zip,
            address_zip_check,
            brand,
            country,
            cvc_check,
            exp_month,
            exp_year,
            fingerprint,
            funding,
            last4,
        })
    }
}

/// A card as the server reports it.
#[derive(Debug)]
pub struct Card {
    pub id: String,
    pub address_city: Option<String>,
    pub address_country: Option<String>,
    pub address_line1: Option<String>,
    pub address_line1_check: Option<String>,
    pub address_line2: Option<String>,
    pub address_state: Option<String>,
    pub address_zip: Option<String>,
    pub address_zip_check: Option<String>,
    pub brand: String,
    pub country: String,
    pub cvc_check: Option<String>,
    pub exp_month: u32,
    pub exp_year: u32,
    pub fingerprint: String,
    pub funding: String,
    pub last4: String,
    pub name: Option<String>,
}

impl FromJson for Card {
    open spec fn decodes_as(j: Json, v: Card) -> bool {
        j is Obj
        && has(j, "id"@, v.id)
        && has_opt(j, "address_city"@, v.address_city)
        && has_opt(j, "address_country"@, v.address_country)
        && has_opt(j, "address_line1"@, v.address_line1)
        && has_opt(j, "address_line1_check"@, v.address_line1_check)
        && has_opt(j, "address_line2"@, v.address_line2)
        && has_opt(j, "address_state"@, v.address_state)
        && has_opt(j, "address_zip"@, v.address_zip)
        && has_opt(j, "address_zip_check"@, v.address_zip_check)
        && has(j, "brand"@, v.brand)
        && has(j, "country"@, v.country)
        && has_opt(j, "cvc_check"@, v.cvc_check)
        && has(j, "exp_month"@, v.exp_month)
        && has(j, "exp_year"@, v.exp_year)
        && has(j, "fingerprint"@, v.fingerprint)
        && has(j, "funding"@, v.funding)
        && has(j, "last4"@, v.last4)
        && has_opt(j, "name"@, v.name)
    }

    fn from_json(j: &Json) -> (r: Result<Card, DecodeError>) {
        if !j.is_object() {
            return Err(DecodeError::Malformed);
        }
        let id = required::<String>(j, "id")?;
        let address_city = optional::<String>(j, "address_city")?;
        let address_country = optional::<String>(j, "address_country")?;
        let address_line1 = optional::<String>(j, "address_line1")?;
        let address_line1_check = optional::<String>(j, "address_line1_check")?;
        let address_line2 = optional::<String>(j, "address_line2")?;
        let address_state = optional::<String>(j, "address_state")?;
        let address_zip = optional::<String>(j, "address_zip")?;
        let address_zip_check = optional::<String>(j, "address_zip_check")?;
        let brand = required::<String>(j, "brand")?;
        let country = required::<String>(j, "country")?;
        let cvc_check = optional::<String>(j, "cvc_check")?;
        let exp_month = required::<u32>(j, "exp_month")?;
        let exp_year = required::<u32>(j, "exp_year")?;
        let fingerprint = required::<String>(j, "fingerprint")?;
        let funding = required::<String>(j, "funding")?;
        let last4 = required::<String>(j, "last4")?;
        let name = optional::<String>(j, "name")?;
        Ok(Card {
            id,
            address_city,
            address_country,
            address_line1,
            address_line1_check,
            address_line2,
            address_state,
            address_zip,
            address_zip_check,
            brand,
            country,
            cvc_check,
            exp_month,
            exp_year,
            fingerprint,
            funding,
            last4,
            name,
        })
    }
}

/// A generic source object as the server reports it.
#[derive(Debug)]
pub struct SourceType {
    pub id: String,
    pub amount: u64,
    pub client_secret: Option<String>,
    pub created: Timestamp,
    pub currency: Option<Currency>,
    pub flow: String,
    pub livemode: bool,
    pub metadata: Metadata,
    pub owner: SourceOwner,
    pub statement_descriptor: Option<String>,
    pub status: String,
    pub source_type: String,
    pub usage: String,
    pub card: Option<SourceCard>,
}

impl FromJson for SourceType {
    open spec fn decodes_as(j: Json, v: SourceType) -> bool {
        j is Obj
        && has(j, "id"@, v.id)
        && has(j, "amount"@, v.amount)
        && has_opt(j, "client_secret"@, v.client_secret)
        && has(j, "created"@, v.created)
        && has_opt(j, "currency"@, v.currency)
        && has(j, "flow"@, v.flow)
        && has(j, "livemode"@, v.livemode)
        && has(j, "metadata"@, v.metadata)
        && has(j, "owner"@, v.owner)
        && has_opt(j, "statement_descriptor"@, v.statement_descriptor)
        && has(j, "status"@, v.status)
        && has(j, "type"@, v.source_type)
        && has(j, "usage"@, v.usage)
        && has_opt(j, "card"@, v.card)
    }

    fn from_json(j: &Json) -> (r: Result<SourceType, DecodeError>) {
        if !j.is_object() {
            return Err(DecodeError::Malformed);
        }
        let id = required::<String>(j, "id")?;
        let amount = required::<u64>(j, "amount")?;
        let client_secret = optional::<String>(j, "client_secret")?;
        let created = required::<Timestamp>(j, "created")?;
        let currency = optional::<Currency>(j, "currency")?;
        let flow = required::<String>(j, "flow")?;
        let livemode = required::<bool>(j, "livemode")?;
        let metadata = required::<Metadata>(j, "metadata")?;
        let owner = required::<SourceOwner>(j, "owner")?;
        let statement_descriptor = optional::<String>(j, "statement_descriptor")?;
        let status = required::<String>(j, "status")?;
        let source_type = required::<String>(j, "type")?;
        let usage = required::<String>(j, "usage")?;
        let card = optional::<SourceCard>(j, "card")?;
        Ok(SourceType {
            id,
            amount,
            client_secret,
            created,
            currency,
            flow,
            livemode,
            metadata,
            owner,
            statement_descriptor,
            status,
            source_type,
            usage,
            card,
        })
    }
}

/// A payment source: the wire member `object` says which shape it has.
#[derive(Debug)]
pub enum Source {
    Card(Card),
    Source(SourceType),
}

/// Whether `j` names, in `object`, a shape that is not a source shape known here.
pub open spec fn unknown_source_kind(j: Json) -> bool {
    match field(j, "object"@) {
        Some(Json::Str(t)) => t@ != "card"@ && t@ != "source"@,
        _ => false,
    }
}

/// `"object": "card"` reads the rest as a card, `"object": "source"` as a
/// generic source; any other value reads as nothing.
impl FromJson for Source {
    open spec fn decodes_as(j: Json, v: Source) -> bool {
        match v {
            Source::Card(c) => str_member(j, "object"@, "card"@) && Card::decodes_as(j, c),
            Source::Source(s) => str_member(j, "object"@, "source"@) && SourceType::decodes_as(j, s),
        }
    }

    fn from_json(j: &Json) -> (r: Result<Source, DecodeError>) {
        Source::decode(j)
    }
}

impl Source {
    /// Reads a source; the error is `UnknownVariant` exactly where `object` is a
    /// string that names no known shape.
    pub fn decode(j: &Json) -> (r: Result<Source, DecodeError>)
        ensures
            match r {
                Ok(v) => Source::decodes_as(*j, v),
                Err(e) => (forall|v: Source| !#[trigger] Source::decodes_as(*j, v))
                    && (e == DecodeError::UnknownVariant <==> unknown_source_kind(*j)),
            },
    {
        proof {
            reveal_strlit("card");
            reveal_strlit("source");
            assert("card"@.len() == 4 && "source"@.len() == 6);
        }
        if j.str_member_is("object", "card") {
            match Card::from_json(j) {
                Ok(c) => Ok(Source::Card(c)),
                Err(_) => Err(DecodeError::Malformed),
            }
        } else if j.str_member_is("object", "source") {
            match SourceType::from_json(j) {
                Ok(s) => Ok(Source::Source(s)),
                Err(_) => Err(DecodeError::Malformed),
            }
        } else {
            match j.get("object") {
                Some(Json::Str(_)) => Err(DecodeError::UnknownVariant),
                _ => Err(DecodeError::Malformed),
            }
        }
    }
}

/// The variant follows `object`: `"card"` gives a card, `"source"` a generic
/// source, and a value that names neither gives no source at all.
pub proof fn lemma_source_variant(j: Json, v: Source)
    requires
        Source::decodes_as(j, v),
    ensures
        str_member(j, "object"@, "card"@) ==> v is Card,
        str_member(j, "object"@, "source"@) ==> v is Source,
        !unknown_source_kind(j),
{
    reveal_strlit("card");
    reveal_strlit("source");
    assert("card"@.len() == 4 && "source"@.len() == 6);
}

/// With every member unset, a source's parameters are written as an empty object.
pub proof fn lemma_source_params_unset_omitted(p: SourceParams, j: Json)
    requires
        p.source_type is None,
        p.amount is None,
        p.currency is None,
        p.flow is None,
        p.metadata is None,
        p.owner is None,
        p.redirect is None,
        p.token is None,
        p.usage is None,
        p.encodes_as(j),
    ensures
        keys_of(j) == Seq::<Seq<char>>::empty(),
        field(j, "type"@) is None,
        field(j, "amount"@) is None,
        field(j, "currency"@) is None,
        field(j, "flow"@) is None,
        field(j, "metadata"@) is None,
        field(j, "owner"@) is None,
        field(j, "redirect"@) is None,
        field(j, "token"@) is None,
        field(j, "usage"@) is None,
{
}

/// Each member of a source's parameters that is set is written under its key as
/// its own wire form, whatever the other members hold.
pub proof fn lemma_source_params_set_present(p: SourceParams, j: Json)
    requires
        p.encodes_as(j),
    ensures
        p.source_type matches Some(v) ==> enc(j, "type"@, v),
        p.amount matches Some(v) ==> enc(j, "amount"@, v),
        p.currency matches Some(v) ==> enc(j, "currency"@, v),
        p.flow matches Some(v) ==> enc(j, "flow"@, v),
        p.metadata matches Some(v) ==> enc(j, "metadata"@, v),
        p.owner matches Some(v) ==> enc(j, "owner"@, v),
        p.redirect matches Some(v) ==> enc(j, "redirect"@, v),
        p.token matches Some(v) ==> enc(j, "token"@, v),
        p.usage matches Some(v) ==> enc(j, "usage"@, v),
{
}

/// With every member unset, a source owner is written as an empty object.
pub proof fn lemma_owner_params_unset_omitted(p: OwnerParams, j: Json)
    requires
        p.address is None,
        p.email is None,
        p.name is None,
        p.phone is None,
        p.encodes_as(j),
    ensures
        keys_of(j) == Seq::<Seq<char>>::empty(),
        field(j, "address"@) is None,
        field(j, "email"@) is None,
        field(j, "name"@) is None,
        field(j, "phone"@) is None,
{
}

/// With every optional member unset, an address is written as exactly `line1`.
pub proof fn lemma_address_unset_omitted(p: Address, j: Json)
    requires
        p.line2 is None,
        p.city is None,
        p.state is None,
        p.postal_code is None,
        p.country is None,
        p.encodes_as(j),
    ensures
        keys_of(j) == Seq::<Seq<char>>::empty().push("line1"@),
        field(j, "line2"@) is None,
        field(j, "city"@) is None,
        field(j, "state"@) is None,
        field(j, "postal_code"@) is None,
        field(j, "country"@) is None,
{
}

/// Each member of a source owner that is set is written under its key, whatever
/// the others hold.
pub proof fn lemma_owner_params_set_present(p: OwnerParams, j: Json)
    requires
        p.encodes_as(j),
    ensures
        p.address matches Some(v) ==> enc(j, "address"@, v),
        p.email matches Some(v) ==> enc(j, "email"@, v),
        p.name matches Some(v) ==> enc(j, "name"@, v),
        p.phone matches Some(v) ==> enc(j, "phone"@, v),
{
}

/// Each optional member of an address that is set is written under its key,
/// whatever the others hold.
pub proof fn lemma_address_set_present(p: Address, j: Json)
    requires
        p.encodes_as(j),
    ensures
        p.line2 matches Some(v) ==> enc(j, "line2"@, v),
        p.city matches Some(v) ==> enc(j, "city"@, v),
        p.state matches Some(v) ==> enc(j, "state"@, v),
        p.postal_code matches Some(v) ==> enc(j, "postal_code"@, v),
        p.country matches Some(v) ==> enc(j, "country"@, v),
{
}

impl Source {
    /// The request that creates a source.
    pub fn create_request(params: &SourceParams) -> (r: Request)
        ensures
            r.method == Method::Post,
            r.path@ == "/sources"@,
            r.body matches Some(b) && params.encodes_as(b),
    {
        let path = "/sources".to_owned();
        Request { method: Method::Post, path, body: Some(params.to_json()) }
    }

    /// Sends the request that creates a source, and reads the answer.
    pub fn create<C: Client>(client: &C, params: SourceParams) -> (r: Result<Source, Error>)
        ensures
            exists|raw: Result<Json, TransportError>| responds(raw, r),
    {
        call(client, &Self::create_request(&params))
    }

    /// The request that fetches the source `source_id`.
    pub fn get_request(source_id: &str) -> (r: Request)
        ensures
            r.method == Method::Get,
            r.path@ == "/sources/"@ + source_id@ + ""@,
            r.body is None,
    {
        let path = path_with("/sources/", source_id, "");
        Request { method: Method::Get, path, body: None }
    }

    /// Sends the request that fetches the source `source_id`, and reads the answer.
    pub fn get<C: Client>(client: &C, source_id: &str) -> (r: Result<Source, Error>)
        ensures
            exists|raw: Result<Json, TransportError>| responds(raw, r),
    {
        call(client, &Self::get_request(source_id))
    }

    /// The request that changes the source `source_id`.
    pub fn update_request(source_id: &str, params: &SourceParams) -> (r: Request)
        ensures
            r.method == Method::Post,
            r.path@ == "/sources/"@ + source_id@ + ""@,
            r.body matches Some(b) && params.encodes_as(b),
    {
        let path = path_with("/sources/", source_id, "");
        Request { method: Method::Post, path, body: Some(params.to_json()) }
    }

    /// Sends the request that changes the source `source_id`, and reads the answer.
    pub fn update<C: Client>(client: &C, source_id: &str, params: SourceParams) -> (r: Result<Source, Error>)
        ensures
            exists|raw: Result<Json, TransportError>| responds(raw, r),
    {
        call(client, &Self::update_request(source_id, &params))
    }

}

} // verus!
