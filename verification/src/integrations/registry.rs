//! Building a tag source from its stored integration row: which provider
//! it is, whether its settings are complete, and where its secrets come
//! from.

use vstd::prelude::*;

use crate::crypto::{decrypt_spec, MasterKey};
use crate::db::integrations::IntegrationRow;
use crate::error::{is_message, ApiError};
use crate::integrations::catalog::{provider_named, IntegrationProvider, IntegrationType};
use crate::integrations::discogs::discogs_token;
use crate::integrations::gnudb::{gnudb_server_base, server_base_spec};
use crate::integrations::musicbrainz::musicbrainz_user_agent;
use crate::integrations::tracktype::{tracktype_settings, tracktype_settings_spec};
use crate::library::tags::{clone_opt, opt_view};
use crate::text::{append_chars, chars_of, string_of, trim};

verus! {

/// The string fields of an integration's `config_json` the providers read;
/// a field that is missing or not a string is `None`.
#[derive(Debug, Clone, Default)]
pub struct ProviderConfig {
    pub contact: Option<String>,
    pub server_base: Option<String>,
    pub api_base: Option<String>,
    pub api_key: Option<String>,
}

/// The string fields of an integration's secrets object.
#[derive(Debug, Clone, Default)]
pub struct ProviderSecrets {
    pub token: Option<String>,
    pub api_key: Option<String>,
}

/// What a tag source is built from once its settings are checked.
#[derive(Debug, Clone)]
pub enum TagSourceSettings {
    MusicBrainz { user_agent: String },
    Discogs { token: String },
    Gnudb { server_base: String },
    Tracktype { api_base: String, api_key: Option<String> },
}

/// Which provider a stored row builds: only tag sources of a known
/// provider are built.
pub open spec fn row_provider_spec(type_: Seq<char>, provider: Seq<char>) -> Result<
    IntegrationProvider,
    Seq<char>,
> {
    if type_ != "tag_source"@ {
        Err("invalid integration type"@)
    } else {
        match provider_named(provider) {
            Some(p) => Ok(p),
            None => Err("unknown provider"@),
        }
    }
}

pub fn row_provider(row: &IntegrationRow) -> (r: Result<IntegrationProvider, ApiError>)
    ensures
        match row_provider_spec(row.type_@, row.provider@) {
            Ok(p) => r == Ok::<IntegrationProvider, ApiError>(p),
            Err(m) => r matches Err(e) && is_message(e, m),
        },
{
    match IntegrationType::parse(row.type_.as_str()) {
        Some(IntegrationType::TagSource) => {},
        None => {
            return Err(ApiError::bad_request("invalid integration type"));
        },
    }
    match IntegrationProvider::parse(row.provider.as_str()) {
        Some(p) => Ok(p),
        None => Err(ApiError::bad_request("unknown provider")),
    }
}

/// The error for a `config_json` that does not parse, given the parser's
/// message.
pub fn invalid_config_json(parse_error: &str) -> (e: ApiError)
    ensures
        is_message(e, "invalid config_json: "@ + parse_error@),
{
    let mut v = chars_of("invalid config_json: ");
    append_chars(&mut v, chars_of(parse_error).as_slice());
    ApiError::Message(string_of(v.as_slice()))
}

/// The decrypted secrets blob of a row (`decrypt_secret` up to reading the
/// blob): the row must hold encrypted secrets for `field`, and the master
/// key must be configured.
pub open spec fn secrets_blob_spec(enc: Option<Seq<char>>, key: Option<Seq<u8>>, field: Seq<char>) -> Result<
    Seq<char>,
    Seq<char>,
> {
    match enc {
        None => Err("missing secret for "@ + field),
        Some(e) => match key {
            None => Err("EUTERPE_MASTER_KEY is required for this integration"@),
            Some(k) => decrypt_spec(k, e),
        },
    }
}

pub fn secrets_blob(row: &IntegrationRow, master_key: Option<&MasterKey>, field: &str) -> (r: Result<
    String,
    ApiError,
>)
    ensures
        match secrets_blob_spec(
            opt_view(row.config_secrets_enc),
            match master_key {
                Some(k) => Some(k.key()),
                None => None,
            },
            field@,
        ) {
            Ok(t) => r matches Ok(s) && s@ == t,
            Err(m) => r matches Err(e) && is_message(e, m),
        },
{
    let enc = match &row.config_secrets_enc {
        Some(e) => e,
        None => {
            let mut v = chars_of("missing secret for ");
            append_chars(&mut v, chars_of(field).as_slice());
            return Err(ApiError::Message(string_of(v.as_slice())));
        },
    };
    let master = match master_key {
        Some(k) => k,
        None => {
            return Err(ApiError::bad_request("EUTERPE_MASTER_KEY is required for this integration"));
        },
    };
    master.decrypt(enc.as_str())
}

/// A field of the secrets object; it must be there.
pub fn secret_field(value: Option<&String>, field: &str) -> (r: Result<String, ApiError>)
    ensures
        match value {
            Some(v) => r matches Ok(s) && s@ == v@,
            None => r matches Err(e) && is_message(e, "secret field "@ + field@ + " missing"@),
        },
{
    match value {
        Some(v) => Ok(v.clone()),
        None => {
            let mut m = chars_of("secret field ");
            append_chars(&mut m, chars_of(field).as_slice());
            append_chars(&mut m, chars_of(" missing").as_slice());
            Err(ApiError::Message(string_of(m.as_slice())))
        },
    }
}

pub open spec fn text_or_empty(o: Option<String>) -> Seq<char> {
    match o {
        Some(s) => s@,
        None => Seq::empty(),
    }
}

pub open spec fn opt_text(o: Option<&str>) -> Option<Seq<char>> {
    match o {
        Some(s) => Some(s@),
        None => None,
    }
}

/// What the settings of a built tag source are: MusicBrainz with its
/// contact (which must not be blank), Discogs with its token (which must
/// not be blank), GnuDB with its server, TrackType with its base and key.
pub open spec fn settings_matches(
    s: TagSourceSettings,
    provider: IntegrationProvider,
    config: ProviderConfig,
    token: Option<Seq<char>>,
    key: Option<Seq<char>>,
) -> bool {
    match provider {
        IntegrationProvider::MusicBrainz => s matches TagSourceSettings::MusicBrainz { user_agent } && user_agent@
            == "Euterpe/0.1 ( "@ + trim(text_or_empty(config.contact)) + " )"@,
        IntegrationProvider::Discogs => s matches TagSourceSettings::Discogs { token: t } && t@ == trim(
            token->0,
        ),
        IntegrationProvider::Gnudb => s matches TagSourceSettings::Gnudb { server_base } && server_base@
            == server_base_spec(opt_view(config.server_base)),
        IntegrationProvider::Tracktype => s matches TagSourceSettings::Tracktype { api_base, api_key }
            && (api_base@, opt_view(api_key)) == tracktype_settings_spec(
            opt_view(config.api_base),
            key,
        ),
    }
}

/// Whether settings can be built: a MusicBrainz contact and a Discogs token
/// must not be blank.
pub open spec fn settings_complete(provider: IntegrationProvider, config: ProviderConfig, token: Option<Seq<char>>) -> bool {
    match provider {
        IntegrationProvider::MusicBrainz => trim(text_or_empty(config.contact)).len() > 0,
        IntegrationProvider::Discogs => token matches Some(t) && trim(t).len() > 0,
        _ => true,
    }
}

/// The settings a tag source is built with (`build_tag_source` once the
/// secrets are read). `discogs_token` is the decrypted token of a Discogs
/// integration; `tracktype_key` is the TrackType key, the configured one or
/// else the decrypted one.
pub fn tag_source_settings(
    provider: IntegrationProvider,
    config: &ProviderConfig,
    discogs_token_value: Option<&str>,
    tracktype_key: Option<&str>,
) -> (r: Result<TagSourceSettings, ApiError>)
    ensures
        settings_complete(provider, *config, opt_text(discogs_token_value)) ==> (r matches Ok(s)
            && settings_matches(s, provider, *config, opt_text(discogs_token_value), opt_text(tracktype_key))),
        !settings_complete(provider, *config, opt_text(discogs_token_value)) ==> (r matches Err(e)
            && is_message(
            e,
            if provider == IntegrationProvider::MusicBrainz {
                "MusicBrainz contact email is required"@
            } else {
                "Discogs token is required"@
            },
        )),
{
    match provider {
        IntegrationProvider::MusicBrainz => {
            let contact = match &config.contact {
                Some(c) => c.as_str(),
                None => "",
            };
            proof {
                reveal_strlit("");
            }
            let user_agent = musicbrainz_user_agent(contact)?;
            Ok(TagSourceSettings::MusicBrainz { user_agent })
        },
        IntegrationProvider::Discogs => {
            let t = match discogs_token_value {
                Some(t) => t,
                None => "",
            };
            proof {
                reveal_strlit("");
                assert(trim(Seq::<char>::empty()) =~= Seq::<char>::empty());
            }
            let token = discogs_token(t)?;
            Ok(TagSourceSettings::Discogs { token })
        },
        IntegrationProvider::Gnudb => {
            let server = match &config.server_base {
                Some(s) => Some(s.as_str()),
                None => None,
            };
            Ok(TagSourceSettings::Gnudb { server_base: gnudb_server_base(server) })
        },
        IntegrationProvider::Tracktype => {
            let base = match &config.api_base {
                Some(s) => Some(s.as_str()),
                None => None,
            };
            let (api_base, api_key) = tracktype_settings(base, tracktype_key);
            Ok(TagSourceSettings::Tracktype { api_base, api_key })
        },
    }
}

/// The checks of `validate_config` for a new or changed integration: its
/// settings must build, and a Discogs token needs the master key to be
/// stored. The Discogs token and TrackType key come from the submitted
/// secrets (the TrackType key falling back to the configuration).
pub open spec fn validate_spec(
    provider: IntegrationProvider,
    config: ProviderConfig,
    secrets: Option<ProviderSecrets>,
    has_master_key: bool,
) -> Result<(), Seq<char>> {
    match provider {
        IntegrationProvider::MusicBrainz => if trim(text_or_empty(config.contact)).len() > 0 {
            Ok(())
        } else {
            Err("MusicBrainz contact email is required"@)
        },
        IntegrationProvider::Discogs => {
            let token = match secrets {
                Some(s) => opt_view(s.token),
                None => None,
            };
            match token {
                Some(t) => if t.len() == 0 {
                    Err("Discogs token is required"@)
                } else if !has_master_key {
                    Err("EUTERPE_MASTER_KEY is required for Discogs"@)
                } else if trim(t).len() == 0 {
                    Err("Discogs token is required"@)
                } else {
                    Ok(())
                },
                None => Err("Discogs token is required"@),
            }
        },
        _ => Ok(()),
    }
}

pub fn validate_config(
    provider: IntegrationProvider,
    config: &ProviderConfig,
    secrets: Option<&ProviderSecrets>,
    has_master_key: bool,
) -> (r: Result<(), ApiError>)
    ensures
        match validate_spec(
            provider,
            *config,
            match secrets {
                Some(s) => Some(*s),
                None => None,
            },
            has_master_key,
        ) {
            Ok(()) => r is Ok,
            Err(m) => r matches Err(e) && is_message(e, m),
        },
{
    match provider {
        IntegrationProvider::Discogs => {
            let token = match secrets {
                Some(s) => match &s.token {
                    Some(t) => Some(t.as_str()),
                    None => None,
                },
                None => None,
            };
            let t = match token {
                Some(t) => {
                    if chars_of(t).len() == 0 {
                        return Err(ApiError::bad_request("Discogs token is required"));
                    }
                    t
                },
                None => {
                    return Err(ApiError::bad_request("Discogs token is required"));
                },
            };
            if !has_master_key {
                return Err(ApiError::bad_request("EUTERPE_MASTER_KEY is required for Discogs"));
            }
            discogs_token(t)?;
            Ok(())
        },
        _ => {
            let key = match secrets {
                Some(s) => match &s.api_key {
                    Some(k) => Some(k.as_str()),
                    None => None,
                },
                None => None,
            };
            let key = match key {
                Some(k) => Some(k),
                None => match &config.api_key {
                    Some(k) => Some(k.as_str()),
                    None => None,
                },
            };
            tag_source_settings(provider, config, None, key)?;
            Ok(())
        },
    }
}

} // verus!
