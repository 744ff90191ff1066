//! The site configuration that a project directory holds.
use crate::access::{
    access_from, access_word, legacy_visibility_from, normalize_access, normalize_legacy_visibility,
    Access, LegacyVisibility, DEFAULT_ACCESS,
};
use crate::args::{cleaned_opt, read_string};
use crate::config::{is_clean, FileText};
use crate::json::{json_at, json_node, node_text, text_of_node, JsonNode};
use crate::text::{outcome, trim, trimmed};
use vstd::prelude::*;

verus! {

/// The site that a project directory is published as.
#[derive(Debug, PartialEq, Eq)]
pub struct SiteConfig<T = String> {
    pub slug: T,
    pub publish_dir: T,
    pub access: Access,
}

impl DeepView for SiteConfig {
    type V = SiteConfig<Seq<char>>;

    open spec fn deep_view(&self) -> SiteConfig<Seq<char>> {
        SiteConfig { slug: self.slug@, publish_dir: self.publish_dir@, access: self.access }
    }
}

pub const SITE_CONFIG_FILE_NAME: &'static str = ".cfsurge.json";

pub const EMPTY_PUBLISH_DIR: &'static str = "publish directory cannot be empty";

pub const UNLISTED_GONE: &'static str =
    "site config migration required: visibility \"unlisted\" is no longer supported. Set \"access\": \"basic\" and provide CFSURGE_BASIC_AUTH_USERNAME/CFSURGE_BASIC_AUTH_PASSWORD when running publish.";

/// The members of a site configuration file.
#[derive(Debug, PartialEq, Eq)]
pub struct SiteNodes<T = String> {
    pub slug: Option<JsonNode<T>>,
    pub publish_dir: Option<JsonNode<T>>,
    pub access: Option<JsonNode<T>>,
    pub visibility: Option<JsonNode<T>>,
}

impl DeepView for SiteNodes {
    type V = SiteNodes<Seq<char>>;

    open spec fn deep_view(&self) -> SiteNodes<Seq<char>> {
        SiteNodes {
            slug: self.slug.deep_view(),
            publish_dir: self.publish_dir.deep_view(),
            access: self.access.deep_view(),
            visibility: self.visibility.deep_view(),
        }
    }
}

/// The members that a document has, if it is JSON.
pub open spec fn site_nodes(document: Seq<char>) -> Option<SiteNodes<Seq<char>>> {
    match json_node(document, ""@) {
        None => None,
        Some(_) => Some(
            SiteNodes {
                slug: json_node(document, "/slug"@),
                publish_dir: json_node(document, "/publishDir"@),
                access: json_node(document, "/access"@),
                visibility: json_node(document, "/visibility"@),
            },
        ),
    }
}

/// The access mode that a file states. A file of the older form may state a public visibility
/// instead, and one that states neither is public.
pub open spec fn site_access(nodes: SiteNodes<Seq<char>>, fault: Seq<char>) -> Result<
    Access,
    Seq<char>,
> {
    match node_text(nodes.access) {
        Some(word) => match access_from(Some(word)) {
            Some(access) => Ok(access),
            None => Err(fault),
        },
        None => match node_text(nodes.visibility) {
            None => Ok(DEFAULT_ACCESS),
            Some(word) => match legacy_visibility_from(Some(word)) {
                None => Err(fault),
                Some(LegacyVisibility::Unlisted) => Err(UNLISTED_GONE@),
                Some(LegacyVisibility::Public) => Ok(DEFAULT_ACCESS),
            },
        },
    }
}

/// The site that the members of the file at `path` give.
pub open spec fn site_config_of(nodes: Option<SiteNodes<Seq<char>>>, path: Seq<char>) -> Result<
    SiteConfig<Seq<char>>,
    Seq<char>,
> {
    let fault = "invalid site config file: "@ + path;
    match nodes {
        None => Err(fault),
        Some(nodes) => match (
            cleaned_opt(node_text(nodes.slug)),
            cleaned_opt(node_text(nodes.publish_dir)),
        ) {
            (Some(slug), Some(publish_dir)) => match site_access(nodes, fault) {
                Ok(access) => Ok(SiteConfig { slug, publish_dir, access }),
                Err(message) => Err(message),
            },
            _ => Err(fault),
        },
    }
}

/// The site that reading the file at `path` gives, if the file is there.
pub open spec fn site_config_from(file: FileText<Seq<char>>, path: Seq<char>) -> Result<
    Option<SiteConfig<Seq<char>>>,
    Seq<char>,
> {
    match file {
        FileText::Absent => Ok(None),
        FileText::Failed(message) => Err(message),
        FileText::Text(raw) => match site_config_of(site_nodes(raw), path) {
            Ok(site) => Ok(Some(site)),
            Err(message) => Err(message),
        },
    }
}

/// The publish directory that a user's text gives.
pub open spec fn publish_dir_input(value: Seq<char>) -> Result<Seq<char>, Seq<char>> {
    if trimmed(value).len() == 0 {
        Err(EMPTY_PUBLISH_DIR@)
    } else {
        Ok(trimmed(value))
    }
}

/// The members that a document has, if it is JSON.
pub fn read_site_nodes(document: &str) -> (nodes: Option<SiteNodes>)
    ensures
        nodes.deep_view() == site_nodes(document@),
{
    match json_at(document, "") {
        None => None,
        Some(_) => Some(
            SiteNodes {
                slug: json_at(document, "/slug"),
                publish_dir: json_at(document, "/publishDir"),
                access: json_at(document, "/access"),
                visibility: json_at(document, "/visibility"),
            },
        ),
    }
}

/// The site that the members of the file at `path` give.
pub fn site_config_of_nodes(nodes: Option<SiteNodes>, path: &str) -> (site: Result<
    SiteConfig,
    String,
>)
    ensures
        outcome(site) == site_config_of(nodes.deep_view(), path@),
{
    let mut fault = "invalid site config file: ".to_string();
    fault.append(path);
    let nodes = match nodes {
        Some(nodes) => nodes,
        None => return Err(fault),
    };
    let slug = match text_of_node(nodes.slug) {
        Some(text) => read_string(text.as_str()),
        None => None,
    };
    let slug = match slug {
        Some(slug) => slug,
        None => return Err(fault),
    };
    let publish_dir = match text_of_node(nodes.publish_dir) {
        Some(text) => read_string(text.as_str()),
        None => None,
    };
    let publish_dir = match publish_dir {
        Some(publish_dir) => publish_dir,
        None => return Err(fault),
    };
    let access = match text_of_node(nodes.access) {
        Some(word) => match normalize_access(Some(word.as_str())) {
            Some(access) => access,
            None => return Err(fault),
        },
        None => {
            if let Some(word) = text_of_node(nodes.visibility) {
                match normalize_legacy_visibility(Some(word.as_str())) {
                    None => return Err(fault),
                    Some(LegacyVisibility::Unlisted) => return Err(UNLISTED_GONE.to_string()),
                    Some(LegacyVisibility::Public) => {},
                }
            }
            DEFAULT_ACCESS
        },
    };
    Ok(SiteConfig { slug, publish_dir, access })
}

/// The site that reading the file at `path` gives, if the file is there.
pub fn read_site_config_if_exists(file: FileText, path: &str) -> (site: Result<
    Option<SiteConfig>,
    String,
>)
    ensures
        outcome(site) == site_config_from(file.deep_view(), path@),
{
    match file {
        FileText::Absent => Ok(None),
        FileText::Failed(message) => Err(message),
        FileText::Text(raw) => match site_config_of_nodes(read_site_nodes(raw.as_str()), path) {
            Ok(site) => Ok(Some(site)),
            Err(message) => Err(message),
        },
    }
}

/// The publish directory that a user's text gives.
pub fn parse_publish_dir_input(value: &str) -> (publish_dir: Result<String, String>)
    ensures
        outcome(publish_dir) == publish_dir_input(value@),
{
    let publish_dir = trim(value);
    if publish_dir.is_empty() {
        return Err(EMPTY_PUBLISH_DIR.to_string());
    }
    Ok(publish_dir.to_string())
}

/// The members of the file that holds a site.
pub open spec fn nodes_of_site(site: SiteConfig<Seq<char>>) -> SiteNodes<Seq<char>> {
    SiteNodes {
        slug: Some(JsonNode::Text(site.slug)),
        publish_dir: Some(JsonNode::Text(site.publish_dir)),
        access: Some(JsonNode::Text(access_word(site.access))),
        visibility: None,
    }
}

/// A site whose texts are clean reads back as it is from the members of its file.
pub proof fn law_site_reads_back(site: SiteConfig<Seq<char>>, path: Seq<char>)
    requires
        is_clean(Some(site.slug)),
        is_clean(Some(site.publish_dir)),
    ensures
        site_config_of(Some(nodes_of_site(site)), path) == Ok::<SiteConfig<Seq<char>>, Seq<char>>(
            site,
        ),
{
    crate::access::law_access_word_reads_back(site.access);
}

/// A file that states no access mode is public where it states a public visibility or none,
/// and is refused where it states an unlisted one.
pub proof fn law_older_site_files(
    slug: Seq<char>,
    publish_dir: Seq<char>,
    visibility: Option<JsonNode<Seq<char>>>,
    path: Seq<char>,
)
    requires
        is_clean(Some(slug)),
        is_clean(Some(publish_dir)),
    ensures
        ({
            let read = site_config_of(
                Some(
                    SiteNodes {
                        slug: Some(JsonNode::Text(slug)),
                        publish_dir: Some(JsonNode::Text(publish_dir)),
                        access: None,
                        visibility,
                    },
                ),
                path,
            );
            let stated = legacy_visibility_from(node_text(visibility));
            &&& node_text(visibility) is None || stated == Some(LegacyVisibility::Public)
                ==> read == Ok::<SiteConfig<Seq<char>>, Seq<char>>(
                SiteConfig { slug, publish_dir, access: Access::Public },
            )
            &&& stated == Some(LegacyVisibility::Unlisted) ==> read == Err::<
                SiteConfig<Seq<char>>,
                Seq<char>,
            >(UNLISTED_GONE@)
        }),
{
}

/// Each member of a site's file is read from its own place, and the access mode is the one that
/// the file states.
pub proof fn law_site_members_have_their_places(document: Seq<char>, path: Seq<char>)
    ensures
        site_config_from(FileText::Text(document), path) matches Ok(Some(site)) ==> {
            &&& cleaned_opt(node_text(json_node(document, "/slug"@))) == Some(site.slug)
            &&& cleaned_opt(node_text(json_node(document, "/publishDir"@))) == Some(
                site.publish_dir,
            )
            &&& node_text(json_node(document, "/access"@)) matches Some(word) ==> access_from(
                Some(word),
            ) == Some(site.access)
            &&& node_text(json_node(document, "/access"@)) is None ==> site.access == Access::Public
        },
        site_config_from(FileText::Absent, path) == Ok::<Option<SiteConfig<Seq<char>>>, Seq<char>>(
            None,
        ),
        json_node(document, ""@) is None ==> site_config_from(FileText::Text(document), path)
            == Err::<Option<SiteConfig<Seq<char>>>, Seq<char>>(
            "invalid site config file: "@ + path,
        ),
{
}

/// The directory is taken as it was given, without its margins; a blank one is refused.
pub proof fn law_publish_dir_is_the_given_one(value: Seq<char>)
    ensures
        trimmed(value).len() > 0 ==> publish_dir_input(value) == Ok::<Seq<char>, Seq<char>>(
            trimmed(value),
        ),
        trimmed(value).len() == 0 ==> publish_dir_input(value) == Err::<Seq<char>, Seq<char>>(
            "publish directory cannot be empty"@,
        ),
{
}

/// A file that is not there holds no site, one that cannot be read is an error, and otherwise
/// the site is that of its text.
pub proof fn law_site_file_is_read_as_it_is(path: Seq<char>, raw: Seq<char>, message: Seq<char>)
    ensures
        site_config_from(FileText::Absent, path) == Ok::<Option<SiteConfig<Seq<char>>>, Seq<char>>(
            None,
        ),
        site_config_from(FileText::Failed(message), path) == Err::<
            Option<SiteConfig<Seq<char>>>,
            Seq<char>,
        >(message),
        site_config_from(FileText::Text(raw), path) matches Ok(site) ==> site is Some && site_nodes(
            raw,
        ) is Some,
{
}

} // verus!
