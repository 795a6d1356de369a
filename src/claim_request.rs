//! Claim-request messages: their model, how one is read from a JSON message,
//! and how it is written back.
use crate::json::{
    get_field, json_model, model_get, parse_value, parsed_json, u64_from_text, decimal_text,
    lemma_u64_text_round_trip, JsonModel,
};
use vstd::prelude::*;

verus! {

/// The fields of a claim-request message.
#[derive(PartialEq, Eq, Structural, Clone, Copy, Debug)]
pub enum Field {
    MsgType,
    Version,
    ToDid,
    FromDid,
    Iid,
    Mid,
    BlindedMs,
    ProverDid,
    U,
    Ur,
    IssuerDid,
    SchemaSeqNo,
    OptionalData,
}

/// Why a message is not a claim request.
#[derive(PartialEq, Eq, Structural, Clone, Copy, Debug)]
pub enum ParseError {
    /// The text is not one JSON value.
    Malformed,
    /// A required field is absent (or, for the two participant
    /// identifiers, empty).
    MissingField(Field),
    /// A field holds a value of the wrong kind.
    TypeMismatch(Field),
    /// An envelope field holds a value other than the expected constant.
    EnvelopeMismatch(Field),
}

/// The key a field is stored under in a message.
pub open spec fn field_key(f: Field) -> Seq<char> {
    match f {
        Field::MsgType => "msg_type"@,
        Field::Version => "version"@,
        Field::ToDid => "to_did"@,
        Field::FromDid => "from_did"@,
        Field::Iid => "iid"@,
        Field::Mid => "mid"@,
        Field::BlindedMs => "blinded_ms"@,
        Field::ProverDid => "prover_did"@,
        Field::U => "u"@,
        Field::Ur => "ur"@,
        Field::IssuerDid => "issuer_did"@,
        Field::SchemaSeqNo => "schema_seq_no"@,
        Field::OptionalData => "optional_data"@,
    }
}

pub open spec fn claim_request_msg_type() -> Seq<char> {
    "CLAIM_REQUEST"@
}

pub open spec fn claim_request_version() -> Seq<char> {
    "0.1"@
}

impl Field {
    /// The key this field is stored under.
    pub fn key(self) -> (r: &'static str)
        ensures
            r@ == field_key(self),
    {
        match self {
            Field::MsgType => "msg_type",
            Field::Version => "version",
            Field::ToDid => "to_did",
            Field::FromDid => "from_did",
            Field::Iid => "iid",
            Field::Mid => "mid",
            Field::BlindedMs => "blinded_ms",
            Field::ProverDid => "prover_did",
            Field::U => "u",
            Field::Ur => "ur",
            Field::IssuerDid => "issuer_did",
            Field::SchemaSeqNo => "schema_seq_no",
            Field::OptionalData => "optional_data",
        }
    }
}

/// The prover's blinded master secret: `u` is the commitment, `ur` is there
/// only when revocation is in use.
#[derive(Debug)]
pub struct BlindedMasterSecret {
    pub prover_did: String,
    pub u: String,
    pub ur: Option<String>,
}

/// A claim-request message, read in full.
#[derive(Debug)]
pub struct ClaimRequest {
    pub to_did: String,
    pub from_did: String,
    pub iid: String,
    pub mid: String,
    pub blinded_master_secret: BlindedMasterSecret,
    pub issuer_did: String,
    pub schema_seq_no: u64,
    /// Provider-specific fields, carried through as they came.
    pub optional_data: serde_json::Value,
}

pub struct ClaimRequestModel {
    pub to_did: Seq<char>,
    pub from_did: Seq<char>,
    pub iid: Seq<char>,
    pub mid: Seq<char>,
    pub prover_did: Seq<char>,
    pub u: Seq<char>,
    pub ur: Option<Seq<char>>,
    pub issuer_did: Seq<char>,
    pub schema_seq_no: u64,
    pub optional_data: JsonModel,
}

pub open spec fn opt_view(o: Option<String>) -> Option<Seq<char>> {
    match o {
        Some(s) => Some(s@),
        None => None,
    }
}

impl View for ClaimRequest {
    type V = ClaimRequestModel;

    open spec fn view(&self) -> ClaimRequestModel {
        ClaimRequestModel {
            to_did: self.to_did@,
            from_did: self.from_did@,
            iid: self.iid@,
            mid: self.mid@,
            prover_did: self.blinded_master_secret.prover_did@,
            u: self.blinded_master_secret.u@,
            ur: opt_view(self.blinded_master_secret.ur),
            issuer_did: self.issuer_did@,
            schema_seq_no: self.schema_seq_no,
            optional_data: json_model(self.optional_data),
        }
    }
}

/// The value of `f` in `j`, if `j` is an object that has it.
pub open spec fn field_of(j: JsonModel, f: Field) -> Option<JsonModel> {
    model_get(j, field_key(f))
}

/// The text of string field `f` of `j`.
pub open spec fn text_of(j: JsonModel, f: Field) -> Result<Seq<char>, ParseError> {
    match field_of(j, f) {
        None => Err(ParseError::MissingField(f)),
        Some(JsonModel::Str(s)) => Ok(s),
        Some(_) => Err(ParseError::TypeMismatch(f)),
    }
}

/// The text of string field `f` of `j`, which must not be empty.
pub open spec fn nonempty_text_of(j: JsonModel, f: Field) -> Result<Seq<char>, ParseError> {
    match text_of(j, f) {
        Ok(s) => if s.len() == 0 {
            Err(ParseError::MissingField(f))
        } else {
            Ok(s)
        },
        Err(e) => Err(e),
    }
}

/// The revocation part of a blinded master secret: absent or null is none.
pub open spec fn ur_of(b: JsonModel) -> Result<Option<Seq<char>>, ParseError> {
    match field_of(b, Field::Ur) {
        None => Ok(None),
        Some(JsonModel::Null) => Ok(None),
        Some(JsonModel::Str(s)) => Ok(Some(s)),
        Some(_) => Err(ParseError::TypeMismatch(Field::Ur)),
    }
}

/// The blinded master secret object of a message.
pub open spec fn blinded_ms_of(j: JsonModel) -> Result<JsonModel, ParseError> {
    match field_of(j, Field::BlindedMs) {
        None => Err(ParseError::MissingField(Field::BlindedMs)),
        Some(b) => if b is Object {
            Ok(b)
        } else {
            Err(ParseError::TypeMismatch(Field::BlindedMs))
        },
    }
}

pub open spec fn seq_no_of(j: JsonModel) -> Result<u64, ParseError> {
    match field_of(j, Field::SchemaSeqNo) {
        None => Err(ParseError::MissingField(Field::SchemaSeqNo)),
        Some(v) => match v {
            JsonModel::Number(t) => match u64_from_text(t) {
                Some(n) => Ok(n),
                None => Err(ParseError::TypeMismatch(Field::SchemaSeqNo)),
            },
            _ => Err(ParseError::TypeMismatch(Field::SchemaSeqNo)),
        },
    }
}

pub open spec fn optional_data_of(j: JsonModel) -> Result<JsonModel, ParseError> {
    match field_of(j, Field::OptionalData) {
        None => Err(ParseError::MissingField(Field::OptionalData)),
        Some(d) => if d is Object {
            Ok(d)
        } else {
            Err(ParseError::TypeMismatch(Field::OptionalData))
        },
    }
}

/// What a JSON message reads as: the envelope is checked first, then the
/// fields in message order; the first problem found is the error.
pub open spec fn parse_claim_model(j: JsonModel) -> Result<ClaimRequestModel, ParseError> {
    let msg_type = text_of(j, Field::MsgType);
    let version = text_of(j, Field::Version);
    let to_did = nonempty_text_of(j, Field::ToDid);
    let from_did = nonempty_text_of(j, Field::FromDid);
    let iid = text_of(j, Field::Iid);
    let mid = text_of(j, Field::Mid);
    let bms = blinded_ms_of(j);
    let issuer_did = text_of(j, Field::IssuerDid);
    let seq_no = seq_no_of(j);
    let optional_data = optional_data_of(j);
    if msg_type is Err {
        Err(msg_type->Err_0)
    } else if msg_type->Ok_0 != claim_request_msg_type() {
        Err(ParseError::EnvelopeMismatch(Field::MsgType))
    } else if version is Err {
        Err(version->Err_0)
    } else if version->Ok_0 != claim_request_version() {
        Err(ParseError::EnvelopeMismatch(Field::Version))
    } else if to_did is Err {
        Err(to_did->Err_0)
    } else if from_did is Err {
        Err(from_did->Err_0)
    } else if iid is Err {
        Err(iid->Err_0)
    } else if mid is Err {
        Err(mid->Err_0)
    } else if bms is Err {
        Err(bms->Err_0)
    } else if text_of(bms->Ok_0, Field::ProverDid) is Err {
        Err(text_of(bms->Ok_0, Field::ProverDid)->Err_0)
    } else if text_of(bms->Ok_0, Field::U) is Err {
        Err(text_of(bms->Ok_0, Field::U)->Err_0)
    } else if ur_of(bms->Ok_0) is Err {
        Err(ur_of(bms->Ok_0)->Err_0)
    } else if issuer_did is Err {
        Err(issuer_did->Err_0)
    } else if seq_no is Err {
        Err(seq_no->Err_0)
    } else if optional_data is Err {
        Err(optional_data->Err_0)
    } else {
        Ok(
            ClaimRequestModel {
                to_did: to_did->Ok_0,
                from_did: from_did->Ok_0,
                iid: iid->Ok_0,
                mid: mid->Ok_0,
                prover_did: text_of(bms->Ok_0, Field::ProverDid)->Ok_0,
                u: text_of(bms->Ok_0, Field::U)->Ok_0,
                ur: ur_of(bms->Ok_0)->Ok_0,
                issuer_did: issuer_did->Ok_0,
                schema_seq_no: seq_no->Ok_0,
                optional_data: optional_data->Ok_0,
            },
        )
    }
}

/// What a message text reads as.
pub open spec fn parse_claim_text(s: Seq<char>) -> Result<ClaimRequestModel, ParseError> {
    match parsed_json(s) {
        None => Err(ParseError::Malformed),
        Some(j) => parse_claim_model(j),
    }
}

pub open spec fn ur_json(ur: Option<Seq<char>>) -> JsonModel {
    match ur {
        Some(s) => JsonModel::Str(s),
        None => JsonModel::Null,
    }
}

/// The message a claim request is written as.
pub open spec fn claim_json_model(c: ClaimRequestModel) -> JsonModel {
    let bms = Map::<Seq<char>, JsonModel>::empty().insert(
        field_key(Field::ProverDid),
        JsonModel::Str(c.prover_did),
    ).insert(field_key(Field::U), JsonModel::Str(c.u)).insert(field_key(Field::Ur), ur_json(c.ur));
    JsonModel::Object(
        Map::<Seq<char>, JsonModel>::empty().insert(
            field_key(Field::MsgType),
            JsonModel::Str(claim_request_msg_type()),
        ).insert(field_key(Field::Version), JsonModel::Str(claim_request_version())).insert(
            field_key(Field::ToDid),
            JsonModel::Str(c.to_did),
        ).insert(field_key(Field::FromDid), JsonModel::Str(c.from_did)).insert(
            field_key(Field::Iid),
            JsonModel::Str(c.iid),
        ).insert(field_key(Field::Mid), JsonModel::Str(c.mid)).insert(
            field_key(Field::BlindedMs),
            JsonModel::Object(bms),
        ).insert(field_key(Field::IssuerDid), JsonModel::Str(c.issuer_did)).insert(
            field_key(Field::SchemaSeqNo),
            JsonModel::Number(decimal_text(c.schema_seq_no as nat)),
        ).insert(field_key(Field::OptionalData), c.optional_data),
    )
}

/// A claim request that can be written as a message and read back: its
/// participant identifiers are not empty and its optional data is an object.
pub open spec fn claim_model_valid(c: ClaimRequestModel) -> bool {
    &&& c.to_did.len() > 0
    &&& c.from_did.len() > 0
    &&& c.optional_data is Object
}

proof fn lemma_keys_distinct()
    ensures
        forall|f: Field, g: Field| f != g ==> field_key(f) != field_key(g),
{
    reveal_strlit("msg_type");
    reveal_strlit("version");
    reveal_strlit("to_did");
    reveal_strlit("from_did");
    reveal_strlit("iid");
    reveal_strlit("mid");
    reveal_strlit("blinded_ms");
    reveal_strlit("prover_did");
    reveal_strlit("u");
    reveal_strlit("ur");
    reveal_strlit("issuer_did");
    reveal_strlit("schema_seq_no");
    reveal_strlit("optional_data");
    assert forall|f: Field, g: Field| f != g implies field_key(f) != field_key(g) by {
        if field_key(f) == field_key(g) {
            assert(field_key(f).len() == field_key(g).len());
            assert(field_key(f)[0] == field_key(g)[0]);
            if field_key(f).len() > 1 {
                assert(field_key(f)[1] == field_key(g)[1]);
            }
            if field_key(f).len() > 2 {
                assert(field_key(f)[2] == field_key(g)[2]);
            }
        }
    }
}

/// Every claim request that can be written as a message reads back from
/// that message as itself.
pub proof fn lemma_written_message_reads_back(c: ClaimRequestModel)
    requires
        claim_model_valid(c),
    ensures
        parse_claim_model(claim_json_model(c)) == Ok::<ClaimRequestModel, ParseError>(c),
{
    lemma_keys_distinct();
    lemma_u64_text_round_trip(c.schema_seq_no);
    let r = parse_claim_model(claim_json_model(c));
    assert(r->Ok_0 == c);
}

/// Reading a message and writing the claim request back keeps every field:
/// the written message reads as the same claim request, and its optional
/// data, unrecognized keys included, is exactly the original message's.
pub proof fn lemma_read_then_write_round_trip(j: JsonModel)
    requires
        parse_claim_model(j) is Ok,
    ensures
        ({
            let c = parse_claim_model(j)->Ok_0;
            &&& parse_claim_model(claim_json_model(c)) == parse_claim_model(j)
            &&& field_of(claim_json_model(c), Field::OptionalData) == field_of(j, Field::OptionalData)
        }),
{
    let c = parse_claim_model(j)->Ok_0;
    lemma_written_message_reads_back(c);
    lemma_keys_distinct();
}

pub open spec fn result_matches(
    r: Result<ClaimRequest, ParseError>,
    m: Result<ClaimRequestModel, ParseError>,
) -> bool {
    match r {
        Ok(c) => m == Ok::<ClaimRequestModel, ParseError>(c@),
        Err(e) => m == Err::<ClaimRequestModel, ParseError>(e),
    }
}

fn text_field(v: &serde_json::Value, f: Field) -> (r: Result<String, ParseError>)
    ensures
        match r {
            Ok(s) => text_of(json_model(*v), f) == Ok::<Seq<char>, ParseError>(s@),
            Err(e) => text_of(json_model(*v), f) == Err::<Seq<char>, ParseError>(e),
        },
{
    match get_field(v, f.key()) {
        None => Err(ParseError::MissingField(f)),
        Some(x) => match x.as_str() {
            Some(s) => Ok(s.to_owned()),
            None => Err(ParseError::TypeMismatch(f)),
        },
    }
}

fn nonempty_text_field(v: &serde_json::Value, f: Field) -> (r: Result<String, ParseError>)
    ensures
        match r {
            Ok(s) => nonempty_text_of(json_model(*v), f) == Ok::<Seq<char>, ParseError>(s@),
            Err(e) => nonempty_text_of(json_model(*v), f) == Err::<Seq<char>, ParseError>(e),
        },
{
    let s = text_field(v, f)?;
    let t: &str = &s;
    if t.is_empty() {
        Err(ParseError::MissingField(f))
    } else {
        Ok(s)
    }
}

fn ur_field(b: &serde_json::Value) -> (r: Result<Option<String>, ParseError>)
    ensures
        match r {
            Ok(o) => ur_of(json_model(*b)) == Ok::<Option<Seq<char>>, ParseError>(opt_view(o)),
            Err(e) => ur_of(json_model(*b)) == Err::<Option<Seq<char>>, ParseError>(e),
        },
{
    match get_field(b, Field::Ur.key()) {
        None => Ok(None),
        Some(x) => if x.is_null() {
            Ok(None)
        } else {
            match x.as_str() {
                Some(s) => Ok(Some(s.to_owned())),
                None => Err(ParseError::TypeMismatch(Field::Ur)),
            }
        },
    }
}

fn object_field<'a>(v: &'a serde_json::Value, f: Field) -> (r: Result<&'a serde_json::Value, ParseError>)
    ensures
        match r {
            Ok(x) => field_of(json_model(*v), f) == Some(json_model(*x)) && json_model(*x) is Object,
            Err(e) => e == (if field_of(json_model(*v), f) is None {
                ParseError::MissingField(f)
            } else {
                ParseError::TypeMismatch(f)
            }) && !(field_of(json_model(*v), f) is Some && field_of(json_model(*v), f)->Some_0 is Object),
        },
{
    match get_field(v, f.key()) {
        None => Err(ParseError::MissingField(f)),
        Some(x) => if x.is_object() {
            Ok(x)
        } else {
            Err(ParseError::TypeMismatch(f))
        },
    }
}

fn seq_no_field(v: &serde_json::Value) -> (r: Result<u64, ParseError>)
    ensures
        match r {
            Ok(n) => seq_no_of(json_model(*v)) == Ok::<u64, ParseError>(n),
            Err(e) => seq_no_of(json_model(*v)) == Err::<u64, ParseError>(e),
        },
{
    match get_field(v, Field::SchemaSeqNo.key()) {
        None => Err(ParseError::MissingField(Field::SchemaSeqNo)),
        Some(x) => match x.as_u64() {
            Some(n) => Ok(n),
            None => Err(ParseError::TypeMismatch(Field::SchemaSeqNo)),
        },
    }
}

impl ClaimRequest {
    /// Reads a claim request from a parsed JSON message. Either every field
    /// is read or the first problem is reported; nothing partial comes back.
    pub fn create_from_api_msg_json(v: &serde_json::Value) -> (r: Result<ClaimRequest, ParseError>)
        ensures
            result_matches(r, parse_claim_model(json_model(*v))),
    {
        let msg_type = text_field(v, Field::MsgType)?;
        if msg_type != "CLAIM_REQUEST".to_owned() {
            return Err(ParseError::EnvelopeMismatch(Field::MsgType));
        }
        let version = text_field(v, Field::Version)?;
        if version != "0.1".to_owned() {
            return Err(ParseError::EnvelopeMismatch(Field::Version));
        }
        let to_did = nonempty_text_field(v, Field::ToDid)?;
        let from_did = nonempty_text_field(v, Field::FromDid)?;
        let iid = text_field(v, Field::Iid)?;
        let mid = text_field(v, Field::Mid)?;
        let bms = object_field(v, Field::BlindedMs)?;
        let prover_did = text_field(bms, Field::ProverDid)?;
        let u = text_field(bms, Field::U)?;
        let ur = ur_field(bms)?;
        let issuer_did = text_field(v, Field::IssuerDid)?;
        let schema_seq_no = seq_no_field(v)?;
        let optional_data = object_field(v, Field::OptionalData)?;
        Ok(
            ClaimRequest {
                to_did,
                from_did,
                iid,
                mid,
                blinded_master_secret: BlindedMasterSecret { prover_did, u, ur },
                issuer_did,
                schema_seq_no,
                optional_data: optional_data.clone(),
            },
        )
    }
    /// Writes this claim request as a message, envelope included.
    pub fn to_json_value(&self) -> (r: serde_json::Value)
        ensures
            json_model(r) == claim_json_model(self@),
    {
        let mut bms = serde_json::Map::new();
        bms.insert(Field::ProverDid.key().to_owned(), serde_json::Value::from(self.blinded_master_secret.prover_did.clone()));
        bms.insert(Field::U.key().to_owned(), serde_json::Value::from(self.blinded_master_secret.u.clone()));
        let ur = match &self.blinded_master_secret.ur {
            Some(t) => serde_json::Value::from(t.clone()),
            None => serde_json::Value::from(()),
        };
        bms.insert(Field::Ur.key().to_owned(), ur);
        let mut m = serde_json::Map::new();
        m.insert(Field::MsgType.key().to_owned(), serde_json::Value::from("CLAIM_REQUEST".to_owned()));
        m.insert(Field::Version.key().to_owned(), serde_json::Value::from("0.1".to_owned()));
        m.insert(Field::ToDid.key().to_owned(), serde_json::Value::from(self.to_did.clone()));
        m.insert(Field::FromDid.key().to_owned(), serde_json::Value::from(self.from_did.clone()));
        m.insert(Field::Iid.key().to_owned(), serde_json::Value::from(self.iid.clone()));
        m.insert(Field::Mid.key().to_owned(), serde_json::Value::from(self.mid.clone()));
        m.insert(Field::BlindedMs.key().to_owned(), serde_json::Value::from(bms));
        m.insert(Field::IssuerDid.key().to_owned(), serde_json::Value::from(self.issuer_did.clone()));
        m.insert(Field::SchemaSeqNo.key().to_owned(), serde_json::Value::from(self.schema_seq_no));
        m.insert(Field::OptionalData.key().to_owned(), self.optional_data.clone());
        serde_json::Value::from(m)
    }
}

/// Reads a claim request from the text of a message.
pub fn create_claim_request_from_str(s: &str) -> (r: Result<ClaimRequest, ParseError>)
    ensures
        result_matches(r, parse_claim_text(s@)),
{
    match parse_value(s) {
        Ok(v) => ClaimRequest::create_from_api_msg_json(&v),
        Err(_) => Err(ParseError::Malformed),
    }
}

} // verus!
