//! The local credential store: reading an account session out of the
//! session document, and writing one into it.
//!
//! The session document is a flat JSON object. Four of its members are
//! managed here (the two tokens, the account id and the premium flag, the
//! last one written as the text `"true"` or `"false"`); any other member
//! belongs to someone else and survives every write.
//!
//! Reading and writing the file itself is the caller's business:
//! [`read_tokens`] and [`save_credentials`] go from the file's text to a
//! session and back to text, [`load_credentials`] and [`store_credentials`]
//! do the same on a document that has been parsed already.

use crate::error::CliError;
use crate::json::{
    as_text, empty_object, error_text, is_null, is_object, json_model, member, parse,
    parsed_json, render, rendered_json, set_text, JsonModel,
};
use vstd::prelude::*;
use vstd::string::StringExecFns;

verus! {

/// Name of the directory, below the user's configuration directory, that
/// holds the session document.
pub const CONFIG_DIR_NAME: &'static str = "anylist_rs";

/// Name of the session document within that directory.
pub const CONFIG_FILE_NAME: &'static str = "config.json";

/// An authenticated session: what a login hands out and every later command
/// needs.
#[derive(Clone, Debug, PartialEq, Eq)]
pub struct Credentials {
    pub access_token: String,
    pub refresh_token: String,
    pub user_id: String,
    pub is_premium: bool,
}

/// Mathematical content of [`Credentials`].
pub struct CredentialsView {
    pub access_token: Seq<char>,
    pub refresh_token: Seq<char>,
    pub user_id: Seq<char>,
    pub is_premium: bool,
}

impl View for Credentials {
    type V = CredentialsView;

    open spec fn view(&self) -> CredentialsView {
        CredentialsView {
            access_token: self.access_token@,
            refresh_token: self.refresh_token@,
            user_id: self.user_id@,
            is_premium: self.is_premium,
        }
    }
}

/// Name of the member that holds the access token.
pub open spec fn access_token_key() -> Seq<char> {
    "access_token"@
}

/// Name of the member that holds the refresh token.
pub open spec fn refresh_token_key() -> Seq<char> {
    "refresh_token"@
}

/// Name of the member that holds the account id.
pub open spec fn user_id_key() -> Seq<char> {
    "user_id"@
}

/// Name of the member that holds the premium flag.
pub open spec fn is_premium_key() -> Seq<char> {
    "is_premium"@
}

/// How the error words a premium flag that is text but spells no boolean.
pub open spec fn invalid_boolean_label() -> Seq<char> {
    "is_premium (invalid boolean)"@
}

/// How the error words a document that is JSON but can hold no members.
pub open spec fn not_an_object_label() -> Seq<char> {
    "JSON object"@
}

/// The four members that this store owns.
pub open spec fn is_managed_key(key: Seq<char>) -> bool {
    key == access_token_key() || key == refresh_token_key() || key == user_id_key() || key
        == is_premium_key()
}

/// The boolean that a text spells, if it spells one: `true` and `false`,
/// in lower case, are the two texts that do.
pub open spec fn bool_literal(text: Seq<char>) -> Option<bool> {
    if text == "true"@ {
        Some(true)
    } else if text == "false"@ {
        Some(false)
    } else {
        None
    }
}

/// The text under which a premium flag is stored.
pub open spec fn bool_text(flag: bool) -> Seq<char> {
    if flag {
        "true"@
    } else {
        "false"@
    }
}

/// The session that a document holds, or the label of the first member that
/// keeps it from holding one.
///
/// The members are looked at in the order access token, refresh token,
/// account id, premium flag; each must be present and be text, and the
/// premium flag must moreover spell a boolean. Nothing is defaulted.
pub open spec fn stored_credentials(document: JsonModel) -> Result<CredentialsView, Seq<char>> {
    let access_token = document.member(access_token_key()).text();
    let refresh_token = document.member(refresh_token_key()).text();
    let user_id = document.member(user_id_key()).text();
    let flag = document.member(is_premium_key()).text();
    if access_token is None {
        Err(access_token_key())
    } else if refresh_token is None {
        Err(refresh_token_key())
    } else if user_id is None {
        Err(user_id_key())
    } else if flag is None {
        Err(is_premium_key())
    } else if bool_literal(flag->0) is None {
        Err(invalid_boolean_label())
    } else {
        Ok(
            CredentialsView {
                access_token: access_token->0,
                refresh_token: refresh_token->0,
                user_id: user_id->0,
                is_premium: bool_literal(flag->0)->0,
            },
        )
    }
}

/// The document after a session has been written into it: the four managed
/// members hold the session, every other member is untouched.
pub open spec fn with_credentials(document: JsonModel, credentials: CredentialsView) -> JsonModel {
    document.with_member(access_token_key(), JsonModel::Text(credentials.access_token)).with_member(
        refresh_token_key(),
        JsonModel::Text(credentials.refresh_token),
    ).with_member(user_id_key(), JsonModel::Text(credentials.user_id)).with_member(
        is_premium_key(),
        JsonModel::Text(bool_text(credentials.is_premium)),
    )
}

/// The document that a write starts from: an object without members where no
/// file exists yet, else what the file's text parses to (`None` where it is
/// not JSON).
pub open spec fn base_document(existing: Option<Seq<char>>) -> Option<JsonModel> {
    match existing {
        None => Some(JsonModel::Object(Map::empty())),
        Some(text) => parsed_json(text),
    }
}

/// The four key names differ from one another, and the two boolean texts
/// spell their booleans.
pub proof fn lemma_key_names()
    ensures
        access_token_key() != refresh_token_key(),
        access_token_key() != user_id_key(),
        access_token_key() != is_premium_key(),
        refresh_token_key() != user_id_key(),
        refresh_token_key() != is_premium_key(),
        user_id_key() != is_premium_key(),
        bool_literal(bool_text(true)) == Some(true),
        bool_literal(bool_text(false)) == Some(false),
{
    reveal_strlit("access_token");
    reveal_strlit("refresh_token");
    reveal_strlit("user_id");
    reveal_strlit("is_premium");
    reveal_strlit("true");
    reveal_strlit("false");
    assert("access_token"@.len() == 12);
    assert("refresh_token"@.len() == 13);
    assert("user_id"@.len() == 7);
    assert("is_premium"@.len() == 10);
    assert("true"@.len() == 4);
    assert("false"@.len() == 5);
}

/// A session written into a document is the session read back from it, and
/// writing it disturbs nothing else: every member the document had is still
/// there, and each one outside the four managed members is unchanged.
pub proof fn law_written_session_reads_back(document: JsonModel, credentials: CredentialsView)
    ensures
        stored_credentials(with_credentials(document, credentials)) == Ok::<
            CredentialsView,
            Seq<char>,
        >(credentials),
        forall|key: Seq<char>| #[trigger]
            document.members().contains_key(key) ==> with_credentials(
                document,
                credentials,
            ).members().contains_key(key),
        forall|key: Seq<char>|
            !is_managed_key(key) ==> #[trigger] with_credentials(document, credentials).member(
                key,
            ) == document.member(key),
{
    lemma_key_names();
}

/// Writing a session replaces whatever session the document held: of two
/// writes in a row only the second one shows.
pub proof fn law_write_overwrites(
    document: JsonModel,
    first: CredentialsView,
    second: CredentialsView,
)
    ensures
        with_credentials(with_credentials(document, first), second) == with_credentials(
            document,
            second,
        ),
{
    let twice = with_credentials(with_credentials(document, first), second);
    let once = with_credentials(document, second);
    assert(twice.members() =~= once.members());
}

/// A document that lacks one of the four managed members, or holds it as
/// something other than text, while the other three are in order, is
/// rejected with the name of exactly that member.
pub proof fn law_missing_member_is_named(document: JsonModel, key: Seq<char>)
    requires
        is_managed_key(key),
        document.member(key).text() is None,
        forall|other: Seq<char>|
            is_managed_key(other) && other != key ==> #[trigger] document.member(other).text()
                is Some,
        key != is_premium_key() ==> bool_literal(document.member(is_premium_key()).text()->0)
            is Some,
    ensures
        stored_credentials(document) == Err::<CredentialsView, Seq<char>>(key),
{
    lemma_key_names();
    assert(is_managed_key(access_token_key()));
    assert(is_managed_key(refresh_token_key()));
    assert(is_managed_key(user_id_key()));
    assert(is_managed_key(is_premium_key()));
}

/// A premium flag that is text but spells neither `true` nor `false` is
/// rejected as an invalid boolean, once the other three members are in
/// order.
pub proof fn law_invalid_flag_is_named(document: JsonModel)
    requires
        document.member(access_token_key()).text() is Some,
        document.member(refresh_token_key()).text() is Some,
        document.member(user_id_key()).text() is Some,
        document.member(is_premium_key()).text() is Some,
        bool_literal(document.member(is_premium_key()).text()->0) is None,
    ensures
        stored_credentials(document) == Err::<CredentialsView, Seq<char>>(
            invalid_boolean_label(),
        ),
{
}

/// No rejection is generic: whatever keeps a document from holding a
/// session, the error carries one of the four member names or the
/// invalid-boolean label.
pub proof fn law_rejection_names_a_member(document: JsonModel)
    requires
        stored_credentials(document) is Err,
    ensures
        is_managed_key(stored_credentials(document)->Err_0) || stored_credentials(
            document,
        )->Err_0 == invalid_boolean_label(),
{
}

/// The text of the member `key`, where the document has such a member and
/// it is text.
fn text_member(document: &serde_json::Value, key: &str) -> (result: Option<String>)
    ensures
        match result {
            Some(text) => json_model(*document).member(key@).text() == Some(text@),
            None => json_model(*document).member(key@).text() is None,
        },
{
    match as_text(member(document, key)) {
        Some(text) => Some(String::from_str(text)),
        None => None,
    }
}

/// Reads a boolean from the text that spells it.
pub fn parse_bool(text: &str) -> (result: Option<bool>)
    ensures
        result == bool_literal(text@),
{
    let given = String::from_str(text);
    if given == String::from_str("true") {
        Some(true)
    } else if given == String::from_str("false") {
        Some(false)
    } else {
        None
    }
}

/// The error for a member that is missing or malformed, by its label.
fn invalid_field(label: &str) -> (result: CliError)
    ensures
        result matches CliError::ConfigFileInvalid(field) && field@ == label@,
{
    CliError::ConfigFileInvalid(String::from_str(label))
}

/// Reads the session out of a parsed session document.
///
/// Fails with `ConfigFileInvalid`, naming the member, on the first of the
/// four managed members that is missing or is not text, and with the label
/// `is_premium (invalid boolean)` where the premium flag is text but
/// neither `true` nor `false`.
pub fn load_credentials(document: &serde_json::Value) -> (result: Result<Credentials, CliError>)
    ensures
        match stored_credentials(json_model(*document)) {
            Ok(credentials) => result matches Ok(loaded) && loaded@ == credentials,
            Err(label) => result matches Err(CliError::ConfigFileInvalid(field)) && field@
                == label,
        },
{
    let access_token = match text_member(document, "access_token") {
        Some(text) => text,
        None => { return Err(invalid_field("access_token")); },
    };
    let refresh_token = match text_member(document, "refresh_token") {
        Some(text) => text,
        None => { return Err(invalid_field("refresh_token")); },
    };
    let user_id = match text_member(document, "user_id") {
        Some(text) => text,
        None => { return Err(invalid_field("user_id")); },
    };
    let flag = match text_member(document, "is_premium") {
        Some(text) => text,
        None => { return Err(invalid_field("is_premium")); },
    };
    let is_premium = match parse_bool(flag.as_str()) {
        Some(value) => value,
        None => { return Err(invalid_field("is_premium (invalid boolean)")); },
    };
    Ok(Credentials { access_token, refresh_token, user_id, is_premium })
}

/// Loads the session from the text of the session document, `None` standing
/// for a document that does not exist.
///
/// Fails with `ConfigFileNotFound` where there is no document, with
/// `JsonError` where its text is not JSON, and otherwise as
/// [`load_credentials`] does.
pub fn read_tokens(contents: Option<&str>) -> (result: Result<Credentials, CliError>)
    ensures
        match contents {
            None => result == Err::<Credentials, CliError>(CliError::ConfigFileNotFound),
            Some(text) => match parsed_json(text@) {
                None => result matches Err(CliError::JsonError(_)),
                Some(document) => match stored_credentials(document) {
                    Ok(credentials) => result matches Ok(loaded) && loaded@ == credentials,
                    Err(label) => result matches Err(CliError::ConfigFileInvalid(field))
                        && field@ == label,
                },
            },
        },
{
    let text = match contents {
        Some(text) => text,
        None => { return Err(CliError::ConfigFileNotFound); },
    };
    match parse(text) {
        Ok(document) => load_credentials(&document),
        Err(failure) => Err(CliError::JsonError(error_text(&failure))),
    }
}

/// Writes the session into a parsed session document, over whatever the
/// four managed members held before.
///
/// Afterwards the document holds exactly that session, and every member
/// outside the four managed ones is as it was.
pub fn store_credentials(document: &mut serde_json::Value, credentials: &Credentials)
    requires
        json_model(*old(document)).accepts_members(),
    ensures
        json_model(*final(document)) == with_credentials(
            json_model(*old(document)),
            credentials@,
        ),
        stored_credentials(json_model(*final(document))) == Ok::<CredentialsView, Seq<char>>(
            credentials@,
        ),
        forall|key: Seq<char>|
            !is_managed_key(key) ==> #[trigger] json_model(*final(document)).member(key)
                == json_model(*old(document)).member(key),
        forall|key: Seq<char>| #[trigger]
            json_model(*old(document)).members().contains_key(key) ==> json_model(
                *final(document),
            ).members().contains_key(key),
{
    set_text(document, "access_token", credentials.access_token.clone());
    set_text(document, "refresh_token", credentials.refresh_token.clone());
    set_text(document, "user_id", credentials.user_id.clone());
    let flag = if credentials.is_premium {
        "true"
    } else {
        "false"
    };
    set_text(document, "is_premium", String::from_str(flag));
    proof {
        law_written_session_reads_back(json_model(*old(document)), credentials@);
    }
}

/// Writes the session into a parsed session document if the document can
/// hold members, and says so if it cannot.
///
/// An object takes the session as [`store_credentials`] writes it, and so
/// does `null`, which becomes an object. Any other value is left as it is
/// and reported as `ConfigFileInvalid`.
pub fn merge_credentials(
    document: &mut serde_json::Value,
    credentials: &Credentials,
) -> (result: Result<(), CliError>)
    ensures
        json_model(*old(document)).accepts_members() ==> ({
            &&& result is Ok
            &&& json_model(*final(document)) == with_credentials(
                json_model(*old(document)),
                credentials@,
            )
            &&& stored_credentials(json_model(*final(document))) == Ok::<
                CredentialsView,
                Seq<char>,
            >(credentials@)
        }),
        !json_model(*old(document)).accepts_members() ==> ({
            &&& *final(document) == *old(document)
            &&& result matches Err(CliError::ConfigFileInvalid(field)) && field@
                == not_an_object_label()
        }),
{
    if !is_object(document) && !is_null(document) {
        return Err(invalid_field("JSON object"));
    }
    store_credentials(document, credentials);
    Ok(())
}

/// Produces the text of the session document that holds `credentials`.
///
/// `existing` is the text of the document as it stands, `None` where there
/// is none yet. An existing document is merged into: its other members are
/// kept. Fails with `JsonError` where the existing text is not JSON or the
/// merged document cannot be written out, and with `ConfigFileInvalid`
/// where the existing text is JSON but neither an object nor `null`, so
/// that it can hold no members.
pub fn save_credentials(existing: Option<&str>, credentials: &Credentials) -> (result: Result<
    String,
    CliError,
>)
    ensures
        match base_document(
            match existing {
                Some(text) => Some(text@),
                None => None,
            },
        ) {
            None => result matches Err(CliError::JsonError(_)),
            Some(document) => if !document.accepts_members() {
                result matches Err(CliError::ConfigFileInvalid(field)) && field@
                    == not_an_object_label()
            } else {
                match rendered_json(with_credentials(document, credentials@)) {
                    Some(text) => result matches Ok(written) && written@ == text,
                    None => result matches Err(CliError::JsonError(_)),
                }
            },
        },
{
    let mut document = match existing {
        Some(text) => match parse(text) {
            Ok(document) => document,
            Err(failure) => { return Err(CliError::JsonError(error_text(&failure))); },
        },
        None => empty_object(),
    };
    match merge_credentials(&mut document, credentials) {
        Ok(_) => {},
        Err(failure) => { return Err(failure); },
    }
    match render(&document) {
        Ok(text) => Ok(text),
        Err(failure) => Err(CliError::JsonError(error_text(&failure))),
    }
}

} // verus!
