//! The configuration data: a project, its synthetic receipts and the outcome
//! expected for each of them.

use vstd::prelude::*;
use crate::fields::{is_set, is_unset_marker};

verus! {

/// A field of the configuration that must hold a value.
#[derive(Debug, Clone, Copy, PartialEq, Eq)]
pub enum Field {
    ApiUrl,
    SecretKey,
    Name,
    Platform,
    ProductId,
    OrderId,
    Receipt,
    Status,
}

/// Why a configuration, or a part of it, was refused.
#[derive(Debug, Clone, Copy, PartialEq, Eq)]
pub enum ConfigError {
    /// A required string field is empty, `~` or `null`.
    UnsetField(Field),
    /// The API address is not a well-formed absolute URL.
    InvalidUrl,
    /// The file name does not end in `.yml`, `.yaml` or `.json`.
    UnsupportedExtension,
}

/// What the URL parser makes of a text: its normalised form, or nothing when
/// the text is not an absolute URL.
pub uninterp spec fn url_parsed(text: Seq<char>) -> Option<Seq<char>>;

/// Relies on url::Url::parse (re-exported by reqwest): accepts an absolute URL
/// and yields its serialisation.
#[verifier::external_body]
fn parse_url(text: &str) -> (r: Option<String>)
    ensures
        r is Some <==> url_parsed(text@) is Some,
        r is Some ==> url_parsed(text@) == Some(r->Some_0@),
{
    match reqwest::Url::parse(text) {
        Ok(url) => Some(String::from(url)),
        Err(_) => None,
    }
}

/// Accepts an absolute URL and gives its normalised form.
pub fn check_url(text: &str) -> (r: Result<String, ConfigError>)
    ensures
        match url_parsed(text@) {
            Some(u) => r is Ok && r->Ok_0@ == u,
            None => r == Err::<String, _>(ConfigError::InvalidUrl),
        },
{
    match parse_url(text) {
        Some(u) => Ok(u),
        None => Err(ConfigError::InvalidUrl),
    }
}

/// The project that the receipts are sent to. Shared read-only by every run.
#[derive(Debug, Clone, PartialEq, Eq)]
pub struct ProjectInfo {
    /// The endpoint, in the normalised form of the URL parser.
    pub api_url: String,
    pub secret_key: String,
    pub name: String,
}

impl ProjectInfo {
    pub open spec fn wf(&self) -> bool {
        &&& url_parsed(self.api_url@) is Some
        &&& !is_unset_marker(self.secret_key@)
        &&& !is_unset_marker(self.name@)
    }

    /// Checks the three fields in order and keeps the normalised URL.
    pub fn new(api_url: &str, secret_key: String, name: String) -> (r: Result<
        ProjectInfo,
        ConfigError,
    >)
        ensures
            is_unset_marker(api_url@) ==> r == Err::<ProjectInfo, _>(
                ConfigError::UnsetField(Field::ApiUrl),
            ),
            !is_unset_marker(api_url@) && url_parsed(api_url@) is None ==> r == Err::<
                ProjectInfo,
                _,
            >(ConfigError::InvalidUrl),
            !is_unset_marker(api_url@) && url_parsed(api_url@) is Some && is_unset_marker(
                secret_key@,
            ) ==> r == Err::<ProjectInfo, _>(ConfigError::UnsetField(Field::SecretKey)),
            !is_unset_marker(api_url@) && url_parsed(api_url@) is Some && !is_unset_marker(
                secret_key@,
            ) && is_unset_marker(name@) ==> r == Err::<ProjectInfo, _>(
                ConfigError::UnsetField(Field::Name),
            ),
            r is Ok <==> !is_unset_marker(api_url@) && url_parsed(api_url@) is Some
                && !is_unset_marker(secret_key@) && !is_unset_marker(name@),
            r is Ok ==> {
                let p = r->Ok_0;
                &&& url_parsed(api_url@) == Some(p.api_url@)
                &&& p.secret_key@ == secret_key@
                &&& p.name@ == name@
            },
    {
        if !is_set(api_url) {
            return Err(ConfigError::UnsetField(Field::ApiUrl));
        }
        let url = match check_url(api_url) {
            Ok(u) => u,
            Err(e) => return Err(e),
        };
        if !is_set(secret_key.as_str()) {
            return Err(ConfigError::UnsetField(Field::SecretKey));
        }
        if !is_set(name.as_str()) {
            return Err(ConfigError::UnsetField(Field::Name));
        }
        Ok(ProjectInfo { api_url: url, secret_key, name })
    }
}

/// One synthetic receipt.
#[derive(Debug, Clone, PartialEq, Eq)]
pub struct PurchaseData {
    pub platform: String,
    pub product_id: String,
    pub order_id: String,
    pub receipt: String,
    pub client_identifier: Option<String>,
}

/// The first of the receipt's required fields that is unset, in field order.
pub open spec fn first_unset_purchase_field(
    platform: Seq<char>,
    product_id: Seq<char>,
    order_id: Seq<char>,
    receipt: Seq<char>,
) -> Option<Field> {
    if is_unset_marker(platform) {
        Some(Field::Platform)
    } else if is_unset_marker(product_id) {
        Some(Field::ProductId)
    } else if is_unset_marker(order_id) {
        Some(Field::OrderId)
    } else if is_unset_marker(receipt) {
        Some(Field::Receipt)
    } else {
        None
    }
}

impl PurchaseData {
    pub open spec fn wf(&self) -> bool {
        first_unset_purchase_field(
            self.platform@,
            self.product_id@,
            self.order_id@,
            self.receipt@,
        ) is None
    }

    /// Builds a receipt, refusing the first required field that is unset.
    pub fn new(
        platform: String,
        product_id: String,
        order_id: String,
        receipt: String,
        client_identifier: Option<String>,
    ) -> (r: Result<PurchaseData, ConfigError>)
        ensures
            match first_unset_purchase_field(platform@, product_id@, order_id@, receipt@) {
                Some(f) => r == Err::<PurchaseData, _>(ConfigError::UnsetField(f)),
                None => r is Ok && r->Ok_0 == (PurchaseData {
                    platform,
                    product_id,
                    order_id,
                    receipt,
                    client_identifier,
                }),
            },
    {
        if !is_set(platform.as_str()) {
            return Err(ConfigError::UnsetField(Field::Platform));
        }
        if !is_set(product_id.as_str()) {
            return Err(ConfigError::UnsetField(Field::ProductId));
        }
        if !is_set(order_id.as_str()) {
            return Err(ConfigError::UnsetField(Field::OrderId));
        }
        if !is_set(receipt.as_str()) {
            return Err(ConfigError::UnsetField(Field::Receipt));
        }
        Ok(PurchaseData { platform, product_id, order_id, receipt, client_identifier })
    }
}

/// The outcome that a test case expects from the server.
#[derive(Debug, Clone, PartialEq, Eq)]
pub struct ResponseData {
    pub status: String,
}

impl ResponseData {
    pub open spec fn wf(&self) -> bool {
        !is_unset_marker(self.status@)
    }

    /// Builds the expected outcome, refusing an unset status.
    pub fn new(status: String) -> (r: Result<ResponseData, ConfigError>)
        ensures
            is_unset_marker(status@) ==> r == Err::<ResponseData, _>(
                ConfigError::UnsetField(Field::Status),
            ),
            !is_unset_marker(status@) ==> r == Ok::<_, ConfigError>(ResponseData { status }),
    {
        if is_set(status.as_str()) {
            Ok(ResponseData { status })
        } else {
            Err(ConfigError::UnsetField(Field::Status))
        }
    }
}

/// One unit of validation work: a receipt and the status it should get.
#[derive(Debug, Clone, PartialEq, Eq)]
pub struct TestCase {
    pub purchase: PurchaseData,
    pub response: ResponseData,
}

impl TestCase {
    pub open spec fn wf(&self) -> bool {
        self.purchase.wf() && self.response.wf()
    }
}

/// One loaded configuration file: a project and its test cases, in order.
#[derive(Debug, Clone, PartialEq, Eq)]
pub struct Config {
    pub project: ProjectInfo,
    pub tests: Vec<TestCase>,
}

impl Config {
    pub open spec fn wf(&self) -> bool {
        &&& self.project.wf()
        &&& forall|i: int| 0 <= i < self.tests@.len() ==> #[trigger] self.tests@[i].wf()
    }
}

/// The encoding of a configuration file.
#[derive(Debug, Clone, Copy, PartialEq, Eq)]
pub enum ConfigFormat {
    Yaml,
    Json,
}

/// The lowercase form of a text.
pub uninterp spec fn lowercase_of(s: Seq<char>) -> Seq<char>;

/// Relies on str::to_lowercase: the lowercase form of `s`, which depends on
/// its characters alone.
#[verifier::external_body]
fn to_lowercase(s: &str) -> (r: String)
    ensures
        r@ == lowercase_of(s@),
{
    s.to_lowercase()
}

/// The format named by a lowercase file extension.
pub open spec fn format_named(ext: Seq<char>) -> Option<ConfigFormat> {
    if ext == "yml"@ || ext == "yaml"@ {
        Some(ConfigFormat::Yaml)
    } else if ext == "json"@ {
        Some(ConfigFormat::Json)
    } else {
        None
    }
}

/// Chooses how to read a configuration file from its extension, whatever
/// its case: `yml` or `yaml` for YAML, `json` for JSON.
pub fn config_format(extension: Option<&str>) -> (r: Result<ConfigFormat, ConfigError>)
    ensures
        match extension {
            Some(ext) => match format_named(lowercase_of(ext@)) {
                Some(f) => r == Ok::<_, ConfigError>(f),
                None => r == Err::<ConfigFormat, _>(ConfigError::UnsupportedExtension),
            },
            None => r == Err::<ConfigFormat, _>(ConfigError::UnsupportedExtension),
        },
{
    let ext = match extension {
        Some(e) => to_lowercase(e),
        None => return Err(ConfigError::UnsupportedExtension),
    };
    if ext == "yml".to_owned() || ext == "yaml".to_owned() {
        Ok(ConfigFormat::Yaml)
    } else if ext == "json".to_owned() {
        Ok(ConfigFormat::Json)
    } else {
        Err(ConfigError::UnsupportedExtension)
    }
}

} // verus!
