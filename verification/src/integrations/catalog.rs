//! The integrations the server offers, with the configuration each takes.

use vstd::prelude::*;

use crate::library::tags::opt_view;
use crate::text::{str_is, str_to_string};

verus! {

#[derive(Debug, Clone, Copy, PartialEq, Eq, Structural)]
pub enum IntegrationType {
    TagSource,
}

pub open spec fn integration_type_text(t: IntegrationType) -> Seq<char> {
    match t {
        IntegrationType::TagSource => "tag_source"@,
    }
}

impl IntegrationType {
    pub fn as_str(self) -> (r: &'static str)
        ensures
            r@ == integration_type_text(self),
    {
        match self {
            IntegrationType::TagSource => "tag_source",
        }
    }

    pub fn parse(s: &str) -> (r: Option<IntegrationType>)
        ensures
            s@ == "tag_source"@ ==> r == Some(IntegrationType::TagSource),
            s@ != "tag_source"@ ==> r is None,
    {
        if str_is(s, "tag_source") {
            Some(IntegrationType::TagSource)
        } else {
            None
        }
    }
}

#[derive(Debug, Clone, Copy, PartialEq, Eq, Structural)]
pub enum IntegrationProvider {
    MusicBrainz,
    Discogs,
    Gnudb,
    Tracktype,
}

pub open spec fn provider_text(p: IntegrationProvider) -> Seq<char> {
    match p {
        IntegrationProvider::MusicBrainz => "musicbrainz"@,
        IntegrationProvider::Discogs => "discogs"@,
        IntegrationProvider::Gnudb => "gnudb"@,
        IntegrationProvider::Tracktype => "tracktype"@,
    }
}

pub open spec fn provider_named(t: Seq<char>) -> Option<IntegrationProvider> {
    if t == "musicbrainz"@ {
        Some(IntegrationProvider::MusicBrainz)
    } else if t == "discogs"@ {
        Some(IntegrationProvider::Discogs)
    } else if t == "gnudb"@ {
        Some(IntegrationProvider::Gnudb)
    } else if t == "tracktype"@ {
        Some(IntegrationProvider::Tracktype)
    } else {
        None
    }
}

impl IntegrationProvider {
    pub fn as_str(self) -> (r: &'static str)
        ensures
            r@ == provider_text(self),
    {
        match self {
            IntegrationProvider::MusicBrainz => "musicbrainz",
            IntegrationProvider::Discogs => "discogs",
            IntegrationProvider::Gnudb => "gnudb",
            IntegrationProvider::Tracktype => "tracktype",
        }
    }

    pub fn parse(s: &str) -> (r: Option<IntegrationProvider>)
        ensures
            r == provider_named(s@),
    {
        if str_is(s, "musicbrainz") {
            Some(IntegrationProvider::MusicBrainz)
        } else if str_is(s, "discogs") {
            Some(IntegrationProvider::Discogs)
        } else if str_is(s, "gnudb") {
            Some(IntegrationProvider::Gnudb)
        } else if str_is(s, "tracktype") {
            Some(IntegrationProvider::Tracktype)
        } else {
            None
        }
    }
}

/// A provider's name reads back as that provider.
pub proof fn lemma_provider_round_trip(p: IntegrationProvider)
    ensures
        provider_named(provider_text(p)) == Some(p),
{
    reveal_strlit("musicbrainz");
    reveal_strlit("discogs");
    reveal_strlit("gnudb");
    reveal_strlit("tracktype");
    assert("musicbrainz"@[0] != "discogs"@[0]);
    assert("musicbrainz"@[0] != "gnudb"@[0]);
    assert("musicbrainz"@[0] != "tracktype"@[0]);
    assert("discogs"@[0] != "gnudb"@[0]);
    assert("discogs"@[0] != "tracktype"@[0]);
    assert("gnudb"@[0] != "tracktype"@[0]);
}

/// A configuration field of an integration.
#[derive(Debug, Clone)]
pub struct ConfigFieldSchema {
    pub key: String,
    pub label: String,
    pub field_type: String,
    pub required: bool,
    pub secret: bool,
    pub placeholder: Option<String>,
}

#[derive(Debug, Clone)]
pub struct IntegrationCatalogEntry {
    pub provider: String,
    pub integration_type: String,
    pub label: String,
    pub description: String,
    pub requires_master_key: bool,
    pub config_schema: Vec<ConfigFieldSchema>,
}

/// A string configuration field with the given key, label, flags and
/// placeholder.
pub open spec fn field_is(
    f: ConfigFieldSchema,
    key: Seq<char>,
    label: Seq<char>,
    required: bool,
    secret: bool,
    placeholder: Option<Seq<char>>,
) -> bool {
    &&& f.key@ == key
    &&& f.label@ == label
    &&& f.field_type@ == "string"@
    &&& f.required == required
    &&& f.secret == secret
    &&& opt_view(f.placeholder) == placeholder
}

/// The catalog entry of a provider: its name, the tag-source type, its
/// label and description, whether its secrets need the master key, and its
/// configuration fields.
pub open spec fn entry_is(e: IntegrationCatalogEntry, p: IntegrationProvider) -> bool {
    &&& e.provider@ == provider_text(p)
    &&& e.integration_type@ == "tag_source"@
    &&& e.label@ == default_display_name_spec(p)
    &&& match p {
        IntegrationProvider::MusicBrainz => {
            &&& e.description@ == "Open music encyclopedia (release search by artist/album)."@
            &&& !e.requires_master_key
            &&& e.config_schema@.len() == 1
            &&& field_is(
                e.config_schema@[0],
                "contact"@,
                "Contact email"@,
                true,
                false,
                Some("you@example.com"@),
            )
        },
        IntegrationProvider::Discogs => {
            &&& e.description@ == "Community-built music database and marketplace."@
            &&& e.requires_master_key
            &&& e.config_schema@.len() == 1
            &&& field_is(
                e.config_schema@[0],
                "token"@,
                "Personal access token"@,
                true,
                true,
                None,
            )
        },
        IntegrationProvider::Gnudb => {
            &&& e.description@ == "FreeDB-compatible metadata (TOC / track durations)."@
            &&& !e.requires_master_key
            &&& e.config_schema@.len() == 1
            &&& field_is(
                e.config_schema@[0],
                "server_base"@,
                "Server base URL"@,
                false,
                false,
                Some("http://gnudb.gnudb.org:80"@),
            )
        },
        IntegrationProvider::Tracktype => {
            &&& e.description@ == "Supplementary metadata lookup."@
            &&& !e.requires_master_key
            &&& e.config_schema@.len() == 2
            &&& field_is(
                e.config_schema@[0],
                "api_base"@,
                "API base URL"@,
                false,
                false,
                Some("https://tracktype.org"@),
            )
            &&& field_is(e.config_schema@[1], "api_key"@, "API key"@, false, true, None)
        },
    }
}

fn string_field(
    key: &str,
    label: &str,
    required: bool,
    secret: bool,
    placeholder: Option<&str>,
) -> (f: ConfigFieldSchema)
    ensures
        field_is(
            f,
            key@,
            label@,
            required,
            secret,
            match placeholder {
                Some(p) => Some(p@),
                None => None,
            },
        ),
{
    ConfigFieldSchema {
        key: str_to_string(key),
        label: str_to_string(label),
        field_type: str_to_string("string"),
        required,
        secret,
        placeholder: match placeholder {
            Some(p) => Some(str_to_string(p)),
            None => None,
        },
    }
}

fn entry(
    p: IntegrationProvider,
    description: &str,
    requires_master_key: bool,
    config_schema: Vec<ConfigFieldSchema>,
) -> (e: IntegrationCatalogEntry)
    ensures
        e.provider@ == provider_text(p),
        e.integration_type@ == "tag_source"@,
        e.label@ == default_display_name_spec(p),
        e.description@ == description@,
        e.requires_master_key == requires_master_key,
        e.config_schema == config_schema,
{
    IntegrationCatalogEntry {
        provider: str_to_string(p.as_str()),
        integration_type: str_to_string(IntegrationType::TagSource.as_str()),
        label: str_to_string(default_display_name(p)),
        description: str_to_string(description),
        requires_master_key,
        config_schema,
    }
}

/// The providers in catalog order.
pub open spec fn catalog_provider(i: int) -> IntegrationProvider {
    if i == 0 {
        IntegrationProvider::MusicBrainz
    } else if i == 1 {
        IntegrationProvider::Discogs
    } else if i == 2 {
        IntegrationProvider::Gnudb
    } else {
        IntegrationProvider::Tracktype
    }
}

/// The catalog: MusicBrainz, Discogs, GnuDB and TrackType.org, all tag
/// sources, whatever the type filter.
pub fn catalog_entries(type_filter: Option<IntegrationType>) -> (r: Vec<IntegrationCatalogEntry>)
    ensures
        r@.len() == 4,
        forall|i: int| 0 <= i < 4 ==> entry_is(#[trigger] r@[i], catalog_provider(i)),
{
    let mut mb_fields: Vec<ConfigFieldSchema> = Vec::new();
    mb_fields.push(string_field("contact", "Contact email", true, false, Some("you@example.com")));
    let mut dg_fields: Vec<ConfigFieldSchema> = Vec::new();
    dg_fields.push(string_field("token", "Personal access token", true, true, None));
    let mut gn_fields: Vec<ConfigFieldSchema> = Vec::new();
    gn_fields.push(
        string_field("server_base", "Server base URL", false, false, Some("http://gnudb.gnudb.org:80")),
    );
    let mut tt_fields: Vec<ConfigFieldSchema> = Vec::new();
    tt_fields.push(
        string_field("api_base", "API base URL", false, false, Some("https://tracktype.org")),
    );
    tt_fields.push(string_field("api_key", "API key", false, true, None));
    let mut all: Vec<IntegrationCatalogEntry> = Vec::new();
    all.push(
        entry(
            IntegrationProvider::MusicBrainz,
            "Open music encyclopedia (release search by artist/album).",
            false,
            mb_fields,
        ),
    );
    all.push(
        entry(
            IntegrationProvider::Discogs,
            "Community-built music database and marketplace.",
            true,
            dg_fields,
        ),
    );
    all.push(
        entry(
            IntegrationProvider::Gnudb,
            "FreeDB-compatible metadata (TOC / track durations).",
            false,
            gn_fields,
        ),
    );
    all.push(
        entry(IntegrationProvider::Tracktype, "Supplementary metadata lookup.", false, tt_fields),
    );
    match type_filter {
        None => all,
        Some(IntegrationType::TagSource) => all,
    }
}

pub open spec fn default_display_name_spec(p: IntegrationProvider) -> Seq<char> {
    match p {
        IntegrationProvider::MusicBrainz => "MusicBrainz"@,
        IntegrationProvider::Discogs => "Discogs"@,
        IntegrationProvider::Gnudb => "GnuDB"@,
        IntegrationProvider::Tracktype => "TrackType.org"@,
    }
}

pub fn default_display_name(provider: IntegrationProvider) -> (r: &'static str)
    ensures
        r@ == default_display_name_spec(provider),
{
    match provider {
        IntegrationProvider::MusicBrainz => "MusicBrainz",
        IntegrationProvider::Discogs => "Discogs",
        IntegrationProvider::Gnudb => "GnuDB",
        IntegrationProvider::Tracktype => "TrackType.org",
    }
}

} // verus!
