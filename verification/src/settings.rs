//! Loading and saving of the settings file.  Parsing the text into a TOML
//! document is the toml crate's work, reached through trusted wrappers; the
//! mapping between the document and the typed [`Config`] — which keys mean
//! what, which types they carry, and which defaults fill unset fields — is
//! this library's own logic and is verified.

use vstd::prelude::*;
use crate::config::{
    Config, KernelConfig, KernelConfigOption, KernelHeaders, QemuConfig, ScriptConfig,
    XfsprogsConfig, XfstestsConfig, XfstestsDevices,
};
use crate::generate::{spec_xfsprogs_default_repo, spec_xfstests_default_repo, xfsprogs_default_repo, xfstests_default_repo};
use crate::text::{lemma_add_assoc, lemma_add_empty, push_char};
use crate::utils::{KdError, KdErrorKind};

verus! {

#[verifier::external_type_specification]
#[verifier::external_body]
pub struct ExTomlValue(toml::Value);

#[verifier::external_type_specification]
#[verifier::external_body]
#[verifier::reject_recursive_types(K)]
#[verifier::reject_recursive_types(V)]
pub struct ExTomlMap<K, V>(toml::map::Map<K, V>);

#[verifier::external_type_specification]
#[verifier::external_body]
pub struct ExTomlDeError(toml::de::Error);

/// The table the text parses to, when it is valid TOML; `None` on any
/// other text.  Parsing is a function of the text alone.
pub uninterp spec fn spec_parsed(s: Seq<char>) -> Option<toml::Table>;

/// The parser's diagnostic for text that is not valid TOML.
pub uninterp spec fn spec_parse_diag(s: Seq<char>) -> Seq<char>;

/// A parse error's rendered text: its Display is a function of the error
/// value alone.
pub uninterp spec fn spec_de_text(e: toml::de::Error) -> Seq<char>;

/// What looking a key up in a table returns.
pub uninterp spec fn spec_table_get(t: toml::Table, key: Seq<char>) -> Option<toml::Value>;

/// The characters of a TOML string value; `None` for any other value.
pub uninterp spec fn spec_value_str(v: toml::Value) -> Option<Seq<char>>;

/// The elements of a TOML array value; `None` for any other value.
pub uninterp spec fn spec_value_arr(v: toml::Value) -> Option<Seq<toml::Value>>;

/// The table inside a TOML table value; `None` for any other value.
pub uninterp spec fn spec_value_tbl(v: toml::Value) -> Option<toml::Table>;

/// A table's entries as (key, TOML rendering) pairs, in document order.
pub uninterp spec fn spec_table_entries(t: toml::Table) -> Seq<(Seq<char>, Seq<char>)>;

/// The views of a sequence of strings.
pub open spec fn spec_views(items: Seq<String>) -> Seq<Seq<char>> {
    items.map_values(|s: String| s@)
}

/// The views of key/value string pairs.
pub open spec fn spec_pair_views(items: Seq<(String, String)>) -> Seq<(Seq<char>, Seq<char>)> {
    items.map_values(|p: (String, String)| (p.0@, p.1@))
}

/// The views of raw kconfig options, as (name, value) pairs.
pub open spec fn spec_option_views(items: Seq<KernelConfigOption>) -> Seq<(Seq<char>, Seq<char>)> {
    items.map_values(|o: KernelConfigOption| (o.name@, o.value@))
}

/// Relies on toml::from_str: parses the text as a TOML document and
/// returns its top-level table — a function of the text alone — or the
/// parser's error on text that is not valid TOML.
#[verifier::external_body]
fn parse_table(s: &str) -> (r: Result<toml::Table, toml::de::Error>)
    ensures
        match r {
            Ok(t) => spec_parsed(s@) == Some(t),
            Err(e) => spec_parsed(s@) is None && spec_de_text(e) == spec_parse_diag(s@),
        },
{
    toml::from_str(s)
}

/// Relies on the Display impl of toml::de::Error: the parser's diagnostic
/// as text.
#[verifier::external_body]
fn de_error_text(e: &toml::de::Error) -> (r: String)
    ensures
        r@ == spec_de_text(*e),
{
    e.to_string()
}

/// Relies on toml::map::Map::get: the value under a key, if any.
#[verifier::external_body]
fn table_get<'a>(t: &'a toml::Table, key: &str) -> (r: Option<&'a toml::Value>)
    ensures
        match r {
            Some(v) => spec_table_get(*t, key@) == Some(*v),
            None => spec_table_get(*t, key@) is None,
        },
{
    t.get(key)
}

/// Relies on toml::Value::as_str: the contained string, when the value is
/// a TOML string.
#[verifier::external_body]
fn value_as_str<'a>(v: &'a toml::Value) -> (r: Option<&'a str>)
    ensures
        match r {
            Some(s) => spec_value_str(*v) == Some(s@),
            None => spec_value_str(*v) is None,
        },
{
    v.as_str()
}

/// Relies on toml::Value::as_array: the contained values, when the value
/// is a TOML array.
#[verifier::external_body]
fn value_as_array<'a>(v: &'a toml::Value) -> (r: Option<&'a Vec<toml::Value>>)
    ensures
        match r {
            Some(a) => spec_value_arr(*v) == Some(a@),
            None => spec_value_arr(*v) is None,
        },
{
    v.as_array()
}

/// Relies on toml::Value::as_table: the contained table, when the value is
/// a TOML table.
#[verifier::external_body]
fn value_as_table<'a>(v: &'a toml::Value) -> (r: Option<&'a toml::Table>)
    ensures
        match r {
            Some(sub) => spec_value_tbl(*v) == Some(*sub),
            None => spec_value_tbl(*v) is None,
        },
{
    v.as_table()
}

/// Relies on toml::map::Map iteration, which with `preserve_order` yields
/// the entries in the document's order, and on toml::Value's Display,
/// which renders each value back as TOML text.
#[verifier::external_body]
fn table_entries(t: &toml::Table) -> (r: Vec<(String, String)>)
    ensures
        spec_pair_views(r@) == spec_table_entries(*t),
{
    t.iter().map(|(k, v)| (k.clone(), v.to_string())).collect()
}

/// The string under a key, when the key is present and holds a string.
pub open spec fn spec_str_field(t: toml::Table, key: Seq<char>) -> Option<Seq<char>> {
    match spec_table_get(t, key) {
        Some(v) => spec_value_str(v),
        None => None,
    }
}

/// The key is absent or holds a string.
pub open spec fn spec_str_field_ok(t: toml::Table, key: Seq<char>) -> bool {
    match spec_table_get(t, key) {
        Some(v) => spec_value_str(v) is Some,
        None => true,
    }
}

/// The strings of an array's elements, when every element is a string.
pub open spec fn spec_strs_of(vs: Seq<toml::Value>) -> Option<Seq<Seq<char>>>
    decreases vs.len(),
{
    if vs.len() == 0 {
        Some(Seq::empty())
    } else {
        match spec_strs_of(vs.drop_last()) {
            Some(ss) => match spec_value_str(vs.last()) {
                Some(s) => Some(ss.push(s)),
                None => None,
            },
            None => None,
        }
    }
}

/// The strings of the array under a key, when the key is present and holds
/// an array of strings.
pub open spec fn spec_arr_field(t: toml::Table, key: Seq<char>) -> Option<Seq<Seq<char>>> {
    match spec_table_get(t, key) {
        Some(v) => match spec_value_arr(v) {
            Some(vs) => spec_strs_of(vs),
            None => None,
        },
        None => None,
    }
}

/// The key is absent or holds an array of strings.
pub open spec fn spec_arr_field_ok(t: toml::Table, key: Seq<char>) -> bool {
    match spec_table_get(t, key) {
        Some(_) => spec_arr_field(t, key) is Some,
        None => true,
    }
}

/// The sub-table under a key, when the key is present and holds a table.
pub open spec fn spec_tbl_field(t: toml::Table, key: Seq<char>) -> Option<toml::Table> {
    match spec_table_get(t, key) {
        Some(v) => spec_value_tbl(v),
        None => None,
    }
}

/// The key is absent or holds a table.
pub open spec fn spec_tbl_field_ok(t: toml::Table, key: Seq<char>) -> bool {
    match spec_table_get(t, key) {
        Some(v) => spec_value_tbl(v) is Some,
        None => true,
    }
}

/// An optional string field decodes to exactly the document's value: set
/// when the key holds a string, unset when the key is absent.
pub open spec fn spec_opt_str(o: Option<Seq<char>>, f: Option<String>) -> bool {
    match f {
        Some(s) => o == Some(s@),
        None => o is None,
    }
}

/// An optional string-list field decodes to exactly the document's values.
pub open spec fn spec_opt_arr(o: Option<Seq<Seq<char>>>, f: Option<Vec<String>>) -> bool {
    match f {
        Some(items) => o == Some(spec_views(items@)),
        None => o is None,
    }
}

fn type_error(key: &str, expected: &str) -> (r: KdError)
    ensures
        r.kind is TOMLError,
{
    KdError::new(
        KdErrorKind::TOMLError("expected ".to_owned().concat(expected)),
        "invalid value for '".to_owned().concat(key).concat("'"),
    )
}

/// The string under `key`, `None` when the key is absent, an error when it
/// holds a value of another type.
fn get_string(t: &toml::Table, key: &str) -> (r: Result<Option<String>, KdError>)
    ensures
        r is Ok <==> spec_str_field_ok(*t, key@),
        r is Ok ==> match r->Ok_0 {
            Some(s) => spec_str_field(*t, key@) == Some(s@),
            None => spec_table_get(*t, key@) is None,
        },
        r is Err ==> r->Err_0.kind is TOMLError,
{
    match table_get(t, key) {
        None => Ok(None),
        Some(v) => match value_as_str(v) {
            Some(s) => Ok(Some(s.to_owned())),
            None => Err(type_error(key, "a string")),
        },
    }
}

/// A prefix with a non-string element has no string list as a whole.
proof fn lemma_strs_of_none(vs: Seq<toml::Value>, j: int)
    requires
        0 <= j < vs.len(),
        spec_value_str(vs[j]) is None,
    ensures
        spec_strs_of(vs) is None,
    decreases vs.len(),
{
    if j < vs.len() - 1 {
        lemma_strs_of_none(vs.drop_last(), j);
    }
}

/// The array of strings under `key`, `None` when the key is absent, an
/// error when it holds anything but an array of strings.
fn get_str_array(t: &toml::Table, key: &str) -> (r: Result<Option<Vec<String>>, KdError>)
    ensures
        r is Ok <==> spec_arr_field_ok(*t, key@),
        r is Ok ==> match r->Ok_0 {
            Some(items) => spec_arr_field(*t, key@) == Some(spec_views(items@)),
            None => spec_table_get(*t, key@) is None,
        },
        r is Err ==> r->Err_0.kind is TOMLError,
{
    match table_get(t, key) {
        None => Ok(None),
        Some(v) => match value_as_array(v) {
            None => Err(type_error(key, "an array of strings")),
            Some(arr) => {
                let mut items: Vec<String> = Vec::new();
                let mut i: usize = 0;
                while i < arr.len()
                    invariant
                        i <= arr@.len(),
                        spec_table_get(*t, key@) == Some(*v),
                        spec_value_arr(*v) == Some(arr@),
                        spec_strs_of(arr@.take(i as int)) == Some(spec_views(items@)),
                    decreases arr@.len() - i,
                {
                    match value_as_str(&arr[i]) {
                        Some(s) => {
                            let owned = s.to_owned();
                            let ghost sview = owned@;
                            let ghost prev = items@;
                            items.push(owned);
                            proof {
                                assert(arr@.take(i + 1 as int).drop_last() =~= arr@.take(i as int));
                                assert(arr@.take(i + 1 as int).last() == arr@[i as int]);
                                assert(spec_views(items@) =~= spec_views(prev).push(sview));
                            }
                        },
                        None => {
                            proof {
                                assert(spec_value_str(arr@[i as int]) is None);
                                lemma_strs_of_none(arr@, i as int);
                                assert(spec_arr_field(*t, key@) is None);
                                assert(!spec_arr_field_ok(*t, key@));
                            }
                            return Err(type_error(key, "an array of strings"));
                        },
                    }
                    i += 1;
                }
                proof {
                    assert(arr@.take(arr@.len() as int) =~= arr@);
                }
                Ok(Some(items))
            },
        },
    }
}

/// The sub-table under `key`, `None` when the key is absent, an error when
/// it holds a value of another type.
fn get_table<'a>(t: &'a toml::Table, key: &str) -> (r: Result<Option<&'a toml::Table>, KdError>)
    ensures
        r is Ok <==> spec_tbl_field_ok(*t, key@),
        r is Ok ==> match r->Ok_0 {
            Some(sub) => spec_tbl_field(*t, key@) == Some(*sub),
            None => spec_table_get(*t, key@) is None,
        },
        r is Err ==> r->Err_0.kind is TOMLError,
{
    match table_get(t, key) {
        None => Ok(None),
        Some(v) => match value_as_table(v) {
            Some(sub) => Ok(Some(sub)),
            None => Err(type_error(key, "a table")),
        },
    }
}

/// Every known key of a headers record is either absent or a string.
pub open spec fn spec_headers_ok(t: toml::Table) -> bool {
    spec_str_field_ok(t, "version"@) && spec_str_field_ok(t, "rev"@) && spec_str_field_ok(
        t,
        "repo"@,
    )
}

/// The decoded headers record carries exactly the document's fields.
pub open spec fn spec_headers_match(t: toml::Table, h: KernelHeaders) -> bool {
    spec_opt_str(spec_str_field(t, "version"@), h.version) && spec_opt_str(
        spec_str_field(t, "rev"@),
        h.rev,
    ) && spec_opt_str(spec_str_field(t, "repo"@), h.repo)
}

fn headers_from_table(t: &toml::Table) -> (r: Result<KernelHeaders, KdError>)
    ensures
        r is Ok <==> spec_headers_ok(*t),
        r is Ok ==> spec_headers_match(*t, r->Ok_0),
        r is Err ==> r->Err_0.kind is TOMLError,
{
    let version = match get_string(t, "version") {
        Ok(v) => v,
        Err(e) => {
            return Err(e);
        },
    };
    let rev = match get_string(t, "rev") {
        Ok(v) => v,
        Err(e) => {
            return Err(e);
        },
    };
    let repo = match get_string(t, "repo") {
        Ok(v) => v,
        Err(e) => {
            return Err(e);
        },
    };
    Ok(KernelHeaders { version, rev, repo })
}

/// Every known key of the kernel section is absent or of its type.
pub open spec fn spec_kernel_ok(t: toml::Table) -> bool {
    spec_str_field_ok(t, "prebuild"@) && spec_str_field_ok(t, "version"@) && spec_str_field_ok(
        t,
        "rev"@,
    ) && spec_str_field_ok(t, "repo"@) && spec_arr_field_ok(t, "flavors"@) && spec_tbl_field_ok(
        t,
        "config"@,
    )
}

/// The decoded kernel section carries exactly the document's fields; the
/// raw kconfig options are the config sub-table's entries, in order.
pub open spec fn spec_kernel_match(t: toml::Table, k: KernelConfig) -> bool {
    spec_opt_str(spec_str_field(t, "prebuild"@), k.prebuild) && spec_opt_str(
        spec_str_field(t, "version"@),
        k.version,
    ) && spec_opt_str(spec_str_field(t, "rev"@), k.rev) && spec_opt_str(
        spec_str_field(t, "repo"@),
        k.repo,
    ) && spec_opt_arr(spec_arr_field(t, "flavors"@), k.flavors) && (match k.config {
        Some(opts) => spec_tbl_field(t, "config"@) is Some && spec_option_views(opts@)
            == spec_table_entries(spec_tbl_field(t, "config"@)->Some_0),
        None => spec_tbl_field(t, "config"@) is None,
    })
}

fn kernel_from_table(t: &toml::Table) -> (r: Result<KernelConfig, KdError>)
    ensures
        r is Ok <==> spec_kernel_ok(*t),
        r is Ok ==> spec_kernel_match(*t, r->Ok_0),
        r is Err ==> r->Err_0.kind is TOMLError,
{
    let prebuild = match get_string(t, "prebuild") {
        Ok(v) => v,
        Err(e) => {
            return Err(e);
        },
    };
    let version = match get_string(t, "version") {
        Ok(v) => v,
        Err(e) => {
            return Err(e);
        },
    };
    let rev = match get_string(t, "rev") {
        Ok(v) => v,
        Err(e) => {
            return Err(e);
        },
    };
    let repo = match get_string(t, "repo") {
        Ok(v) => v,
        Err(e) => {
            return Err(e);
        },
    };
    let flavors = match get_str_array(t, "flavors") {
        Ok(v) => v,
        Err(e) => {
            return Err(e);
        },
    };
    let config = match get_table(t, "config") {
        Ok(Some(sub)) => {
            let entries = table_entries(sub);
            let mut options: Vec<KernelConfigOption> = Vec::new();
            let mut i: usize = 0;
            while i < entries.len()
                invariant
                    i <= entries@.len(),
                    options@.len() == i,
                    forall|j: int| 0 <= j < i ==> (#[trigger] options@[j]).name
                        == entries@[j].0 && options@[j].value == entries@[j].1,
                decreases entries@.len() - i,
            {
                let name = entries[i].0.clone();
                let value = entries[i].1.clone();
                options.push(KernelConfigOption { name, value });
                i += 1;
            }
            proof {
                assert(spec_option_views(options@) =~~= spec_pair_views(entries@));
            }
            Some(options)
        },
        Ok(None) => None,
        Err(e) => {
            return Err(e);
        },
    };
    Ok(KernelConfig { prebuild, version, rev, repo, flavors, config })
}

/// Every known key of the devices record is absent or a string.
pub open spec fn spec_devices_ok(t: toml::Table) -> bool {
    spec_str_field_ok(t, "test"@) && spec_str_field_ok(t, "test_rtdev"@) && spec_str_field_ok(
        t,
        "test_logdev"@,
    ) && spec_str_field_ok(t, "scratch"@) && spec_str_field_ok(t, "scratch_rtdev"@)
        && spec_str_field_ok(t, "scratch_logdev"@)
}

/// The decoded devices record carries exactly the document's fields.
pub open spec fn spec_devices_match(t: toml::Table, d: XfstestsDevices) -> bool {
    spec_opt_str(spec_str_field(t, "test"@), d.test) && spec_opt_str(
        spec_str_field(t, "test_rtdev"@),
        d.test_rtdev,
    ) && spec_opt_str(spec_str_field(t, "test_logdev"@), d.test_logdev) && spec_opt_str(
        spec_str_field(t, "scratch"@),
        d.scratch,
    ) && spec_opt_str(spec_str_field(t, "scratch_rtdev"@), d.scratch_rtdev) && spec_opt_str(
        spec_str_field(t, "scratch_logdev"@),
        d.scratch_logdev,
    )
}

fn devices_from_table(t: &toml::Table) -> (r: Result<XfstestsDevices, KdError>)
    ensures
        r is Ok <==> spec_devices_ok(*t),
        r is Ok ==> spec_devices_match(*t, r->Ok_0),
        r is Err ==> r->Err_0.kind is TOMLError,
{
    let test = match get_string(t, "test") {
        Ok(v) => v,
        Err(e) => {
            return Err(e);
        },
    };
    let test_rtdev = match get_string(t, "test_rtdev") {
        Ok(v) => v,
        Err(e) => {
            return Err(e);
        },
    };
    let test_logdev = match get_string(t, "test_logdev") {
        Ok(v) => v,
        Err(e) => {
            return Err(e);
        },
    };
    let scratch = match get_string(t, "scratch") {
        Ok(v) => v,
        Err(e) => {
            return Err(e);
        },
    };
    let scratch_rtdev = match get_string(t, "scratch_rtdev") {
        Ok(v) => v,
        Err(e) => {
            return Err(e);
        },
    };
    let scratch_logdev = match get_string(t, "scratch_logdev") {
        Ok(v) => v,
        Err(e) => {
            return Err(e);
        },
    };
    Ok(XfstestsDevices { test, test_rtdev, test_logdev, scratch, scratch_rtdev, scratch_logdev })
}

/// Every known key of the xfstests section is absent or of its type, its
/// sub-records included.
pub open spec fn spec_xfstests_ok(t: toml::Table) -> bool {
    spec_str_field_ok(t, "repo"@) && spec_str_field_ok(t, "rev"@) && spec_str_field_ok(t, "args"@)
        && spec_str_field_ok(t, "extra_env"@) && spec_str_field_ok(t, "filesystem"@)
        && spec_str_field_ok(t, "hooks"@) && spec_tbl_field_ok(t, "devices"@) && (spec_tbl_field(
        t,
        "devices"@,
    ) is Some ==> spec_devices_ok(spec_tbl_field(t, "devices"@)->Some_0)) && spec_tbl_field_ok(
        t,
        "kernel_headers"@,
    ) && (spec_tbl_field(t, "kernel_headers"@) is Some ==> spec_headers_ok(
        spec_tbl_field(t, "kernel_headers"@)->Some_0,
    ))
}

/// The decoded xfstests section carries exactly the document's fields; an
/// omitted repository is filled with the section's upstream default URL.
pub open spec fn spec_xfstests_match(t: toml::Table, x: XfstestsConfig) -> bool {
    (match x.repo {
        Some(s) => match spec_str_field(t, "repo"@) {
            Some(v) => s@ == v,
            None => s@ == spec_xfstests_default_repo(),
        },
        None => false,
    }) && spec_opt_str(spec_str_field(t, "rev"@), x.rev) && (match x.devices {
        Some(d) => spec_tbl_field(t, "devices"@) is Some && spec_devices_match(
            spec_tbl_field(t, "devices"@)->Some_0,
            d,
        ),
        None => spec_tbl_field(t, "devices"@) is None,
    }) && spec_opt_str(spec_str_field(t, "args"@), x.args) && spec_opt_str(
        spec_str_field(t, "extra_env"@),
        x.extra_env,
    ) && spec_opt_str(spec_str_field(t, "filesystem"@), x.filesystem) && spec_opt_str(
        spec_str_field(t, "hooks"@),
        x.hooks,
    ) && (match x.kernel_headers {
        Some(h) => spec_tbl_field(t, "kernel_headers"@) is Some && spec_headers_match(
            spec_tbl_field(t, "kernel_headers"@)->Some_0,
            h,
        ),
        None => spec_tbl_field(t, "kernel_headers"@) is None,
    })
}

fn xfstests_from_table(t: &toml::Table) -> (r: Result<XfstestsConfig, KdError>)
    ensures
        r is Ok <==> spec_xfstests_ok(*t),
        r is Ok ==> spec_xfstests_match(*t, r->Ok_0),
        r is Err ==> r->Err_0.kind is TOMLError,
{
    let repo = match get_string(t, "repo") {
        Ok(Some(v)) => Some(v),
        Ok(None) => Some(xfstests_default_repo()),
        Err(e) => {
            return Err(e);
        },
    };
    let rev = match get_string(t, "rev") {
        Ok(v) => v,
        Err(e) => {
            return Err(e);
        },
    };
    let devices = match get_table(t, "devices") {
        Ok(Some(sub)) => match devices_from_table(sub) {
            Ok(d) => Some(d),
            Err(e) => {
                return Err(e);
            },
        },
        Ok(None) => None,
        Err(e) => {
            return Err(e);
        },
    };
    let args = match get_string(t, "args") {
        Ok(v) => v,
        Err(e) => {
            return Err(e);
        },
    };
    let extra_env = match get_string(t, "extra_env") {
        Ok(v) => v,
        Err(e) => {
            return Err(e);
        },
    };
    let filesystem = match get_string(t, "filesystem") {
        Ok(v) => v,
        Err(e) => {
            return Err(e);
        },
    };
    let hooks = match get_string(t, "hooks") {
        Ok(v) => v,
        Err(e) => {
            return Err(e);
        },
    };
    let kernel_headers = match get_table(t, "kernel_headers") {
        Ok(Some(sub)) => match headers_from_table(sub) {
            Ok(h) => Some(h),
            Err(e) => {
                return Err(e);
            },
        },
        Ok(None) => None,
        Err(e) => {
            return Err(e);
        },
    };
    Ok(
        XfstestsConfig {
            repo,
            rev,
            devices,
            args,
            extra_env,
            filesystem,
            hooks,
            kernel_headers,
        },
    )
}

/// Every known key of the xfsprogs section is absent or of its type.
pub open spec fn spec_xfsprogs_ok(t: toml::Table) -> bool {
    spec_str_field_ok(t, "repo"@) && spec_str_field_ok(t, "rev"@) && spec_tbl_field_ok(
        t,
        "kernel_headers"@,
    ) && (spec_tbl_field(t, "kernel_headers"@) is Some ==> spec_headers_ok(
        spec_tbl_field(t, "kernel_headers"@)->Some_0,
    ))
}

/// The decoded xfsprogs section carries exactly the document's fields; an
/// omitted repository is filled with the section's upstream default URL.
pub open spec fn spec_xfsprogs_match(t: toml::Table, x: XfsprogsConfig) -> bool {
    (match x.repo {
        Some(s) => match spec_str_field(t, "repo"@) {
            Some(v) => s@ == v,
            None => s@ == spec_xfsprogs_default_repo(),
        },
        None => false,
    }) && spec_opt_str(spec_str_field(t, "rev"@), x.rev) && (match x.kernel_headers {
        Some(h) => spec_tbl_field(t, "kernel_headers"@) is Some && spec_headers_match(
            spec_tbl_field(t, "kernel_headers"@)->Some_0,
            h,
        ),
        None => spec_tbl_field(t, "kernel_headers"@) is None,
    })
}

fn xfsprogs_from_table(t: &toml::Table) -> (r: Result<XfsprogsConfig, KdError>)
    ensures
        r is Ok <==> spec_xfsprogs_ok(*t),
        r is Ok ==> spec_xfsprogs_match(*t, r->Ok_0),
        r is Err ==> r->Err_0.kind is TOMLError,
{
    let repo = match get_string(t, "repo") {
        Ok(Some(v)) => Some(v),
        Ok(None) => Some(xfsprogs_default_repo()),
        Err(e) => {
            return Err(e);
        },
    };
    let rev = match get_string(t, "rev") {
        Ok(v) => v,
        Err(e) => {
            return Err(e);
        },
    };
    let kernel_headers = match get_table(t, "kernel_headers") {
        Ok(Some(sub)) => match headers_from_table(sub) {
            Ok(h) => Some(h),
            Err(e) => {
                return Err(e);
            },
        },
        Ok(None) => None,
        Err(e) => {
            return Err(e);
        },
    };
    Ok(XfsprogsConfig { repo, rev, kernel_headers })
}

/// The script section must carry its one mandatory string.
pub open spec fn spec_script_ok(t: toml::Table) -> bool {
    spec_str_field(t, "script"@) is Some
}

pub open spec fn spec_script_match(t: toml::Table, s: ScriptConfig) -> bool {
    spec_str_field(t, "script"@) == Some(s.script@)
}

fn script_from_table(t: &toml::Table) -> (r: Result<ScriptConfig, KdError>)
    ensures
        r is Ok <==> spec_script_ok(*t),
        r is Ok ==> spec_script_match(*t, r->Ok_0),
        r is Err ==> r->Err_0.kind is TOMLError,
{
    match get_string(t, "script") {
        Ok(Some(script)) => Ok(ScriptConfig { script }),
        Ok(None) => Err(type_error("script", "a string")),
        Err(e) => Err(e),
    }
}

/// The qemu section's one known key is absent or an array of strings.
pub open spec fn spec_qemu_ok(t: toml::Table) -> bool {
    spec_arr_field_ok(t, "options"@)
}

pub open spec fn spec_qemu_match(t: toml::Table, q: QemuConfig) -> bool {
    spec_opt_arr(spec_arr_field(t, "options"@), q.options)
}

fn qemu_from_table(t: &toml::Table) -> (r: Result<QemuConfig, KdError>)
    ensures
        r is Ok <==> spec_qemu_ok(*t),
        r is Ok ==> spec_qemu_match(*t, r->Ok_0),
        r is Err ==> r->Err_0.kind is TOMLError,
{
    match get_str_array(t, "options") {
        Ok(options) => Ok(QemuConfig { options }),
        Err(e) => Err(e),
    }
}

/// Every known key of the document is absent or of its type, the sections'
/// own keys included.  Unknown keys play no part: they are ignored.
pub open spec fn spec_config_ok(t: toml::Table) -> bool {
    spec_str_field_ok(t, "name"@) && spec_arr_field_ok(t, "packages"@) && spec_tbl_field_ok(
        t,
        "kernel"@,
    ) && (spec_tbl_field(t, "kernel"@) is Some ==> spec_kernel_ok(
        spec_tbl_field(t, "kernel"@)->Some_0,
    )) && spec_tbl_field_ok(t, "xfstests"@) && (spec_tbl_field(t, "xfstests"@) is Some
        ==> spec_xfstests_ok(spec_tbl_field(t, "xfstests"@)->Some_0)) && spec_tbl_field_ok(
        t,
        "xfsprogs"@,
    ) && (spec_tbl_field(t, "xfsprogs"@) is Some ==> spec_xfsprogs_ok(
        spec_tbl_field(t, "xfsprogs"@)->Some_0,
    )) && spec_tbl_field_ok(t, "script"@) && (spec_tbl_field(t, "script"@) is Some
        ==> spec_script_ok(spec_tbl_field(t, "script"@)->Some_0)) && spec_tbl_field_ok(t, "qemu"@)
        && (spec_tbl_field(t, "qemu"@) is Some ==> spec_qemu_ok(spec_tbl_field(t, "qemu"@)->Some_0))
}

/// The decoded configuration carries exactly the document's fields, fully
/// defaulted: the name falls back to `default`, each section is present
/// exactly when the document has it, and each section's fields match it.
pub open spec fn spec_config_match(t: toml::Table, c: Config) -> bool {
    c.name is Some && (match spec_str_field(t, "name"@) {
        Some(v) => c.name->Some_0@ == v,
        None => c.name->Some_0@ == "default"@,
    }) && spec_opt_arr(spec_arr_field(t, "packages"@), c.packages) && (match c.kernel {
        Some(k) => spec_tbl_field(t, "kernel"@) is Some && spec_kernel_match(
            spec_tbl_field(t, "kernel"@)->Some_0,
            k,
        ),
        None => spec_tbl_field(t, "kernel"@) is None,
    }) && (match c.xfstests {
        Some(x) => spec_tbl_field(t, "xfstests"@) is Some && spec_xfstests_match(
            spec_tbl_field(t, "xfstests"@)->Some_0,
            x,
        ),
        None => spec_tbl_field(t, "xfstests"@) is None,
    }) && (match c.xfsprogs {
        Some(x) => spec_tbl_field(t, "xfsprogs"@) is Some && spec_xfsprogs_match(
            spec_tbl_field(t, "xfsprogs"@)->Some_0,
            x,
        ),
        None => spec_tbl_field(t, "xfsprogs"@) is None,
    }) && (match c.script {
        Some(s) => spec_tbl_field(t, "script"@) is Some && spec_script_match(
            spec_tbl_field(t, "script"@)->Some_0,
            s,
        ),
        None => spec_tbl_field(t, "script"@) is None,
    }) && (match c.qemu {
        Some(q) => spec_tbl_field(t, "qemu"@) is Some && spec_qemu_match(
            spec_tbl_field(t, "qemu"@)->Some_0,
            q,
        ),
        None => spec_tbl_field(t, "qemu"@) is None,
    })
}

impl Config {
    /// Decodes a parsed settings document into the typed configuration:
    /// succeeds exactly when every known key is absent or of its type, and
    /// then returns the document's fields, fully defaulted — a missing
    /// environment name becomes `default`, and a present xfstests or
    /// xfsprogs section has its repository filled with the section's
    /// upstream URL.  Unknown keys are ignored.
    pub fn from_table(t: &toml::Table) -> (r: Result<Config, KdError>)
        ensures
            r is Ok <==> spec_config_ok(*t),
            r is Ok ==> spec_config_match(*t, r->Ok_0),
            r is Err ==> r->Err_0.kind is TOMLError,
    {
        let name = match get_string(t, "name") {
            Ok(Some(v)) => Some(v),
            Ok(None) => Some("default".to_owned()),
            Err(e) => {
                return Err(e);
            },
        };
        let packages = match get_str_array(t, "packages") {
            Ok(v) => v,
            Err(e) => {
                return Err(e);
            },
        };
        let kernel = match get_table(t, "kernel") {
            Ok(Some(sub)) => match kernel_from_table(sub) {
                Ok(k) => Some(k),
                Err(e) => {
                    return Err(e);
                },
            },
            Ok(None) => None,
            Err(e) => {
                return Err(e);
            },
        };
        let xfstests = match get_table(t, "xfstests") {
            Ok(Some(sub)) => match xfstests_from_table(sub) {
                Ok(x) => Some(x),
                Err(e) => {
                    return Err(e);
                },
            },
            Ok(None) => None,
            Err(e) => {
                return Err(e);
            },
        };
        let xfsprogs = match get_table(t, "xfsprogs") {
            Ok(Some(sub)) => match xfsprogs_from_table(sub) {
                Ok(x) => Some(x),
                Err(e) => {
                    return Err(e);
                },
            },
            Ok(None) => None,
            Err(e) => {
                return Err(e);
            },
        };
        let script = match get_table(t, "script") {
            Ok(Some(sub)) => match script_from_table(sub) {
                Ok(s) => Some(s),
                Err(e) => {
                    return Err(e);
                },
            },
            Ok(None) => None,
            Err(e) => {
                return Err(e);
            },
        };
        let qemu = match get_table(t, "qemu") {
            Ok(Some(sub)) => match qemu_from_table(sub) {
                Ok(q) => Some(q),
                Err(e) => {
                    return Err(e);
                },
            },
            Ok(None) => None,
            Err(e) => {
                return Err(e);
            },
        };
        Ok(Config { name, packages, kernel, xfstests, xfsprogs, script, qemu })
    }

    /// Parses the settings text and decodes it as [`Config::from_table`]
    /// does: succeeds exactly when the text is valid TOML whose known keys
    /// are well typed, and then returns the parsed document's fields,
    /// fully defaulted.  Text that does not parse is rejected as a
    /// `TOMLError` carrying the parser's diagnostic, with the message
    /// `invalid TOML`.
    pub fn load_from_str(text: &str) -> (r: Result<Config, KdError>)
        ensures
            r is Ok <==> (spec_parsed(text@) is Some && spec_config_ok(spec_parsed(text@)->Some_0)),
            r is Ok ==> spec_config_match(spec_parsed(text@)->Some_0, r->Ok_0),
            spec_parsed(text@) is None ==> r is Err && r->Err_0.kind is TOMLError
                && r->Err_0.kind->TOMLError_0@ == spec_parse_diag(text@) && r->Err_0.message@
                == "invalid TOML"@,
            r is Err ==> r->Err_0.kind is TOMLError,
    {
        match parse_table(text) {
            Ok(t) => Config::from_table(&t),
            Err(e) => Err(
                KdError::new(KdErrorKind::TOMLError(de_error_text(&e)), "invalid TOML".to_owned()),
            ),
        }
    }
}

/// The escaped form of one character inside a TOML basic string.
pub open spec fn spec_escape_char(c: char) -> Seq<char> {
    if c == '"' {
        seq!['\\', '"']
    } else if c == '\\' {
        seq!['\\', '\\']
    } else if c == '\n' {
        seq!['\\', 'n']
    } else if c == '\t' {
        seq!['\\', 't']
    } else if c == '\r' {
        seq!['\\', 'r']
    } else {
        seq![c]
    }
}

/// The body of a TOML basic string holding `s`: quotes, backslashes and
/// the common control characters escaped.
pub open spec fn spec_toml_escape(s: Seq<char>) -> Seq<char>
    decreases s.len(),
{
    if s.len() == 0 {
        Seq::empty()
    } else {
        spec_toml_escape(s.drop_last()) + spec_escape_char(s.last())
    }
}

/// One settings line holding a string value: `key = "value"` and a
/// newline.
pub open spec fn spec_toml_kv(key: Seq<char>, value: Seq<char>) -> Seq<char> {
    key + " = \""@ + spec_toml_escape(value) + "\"\n"@
}

pub open spec fn spec_toml_kv_opt(key: Seq<char>, o: Option<String>) -> Seq<char> {
    if o is Some {
        spec_toml_kv(key, o->Some_0@)
    } else {
        Seq::<char>::empty()
    }
}

/// The items of a TOML string array, quoted and comma-separated.
pub open spec fn spec_toml_items(items: Seq<String>) -> Seq<char>
    decreases items.len(),
{
    if items.len() == 0 {
        Seq::empty()
    } else if items.len() == 1 {
        "\""@ + spec_toml_escape(items[0]@) + "\""@
    } else {
        spec_toml_items(items.drop_last()) + ", \""@ + spec_toml_escape(items.last()@) + "\""@
    }
}

/// One settings line holding a string array: `key = [...]` and a newline.
pub open spec fn spec_toml_array_kv(key: Seq<char>, items: Seq<String>) -> Seq<char> {
    key + " = ["@ + spec_toml_items(items) + "]\n"@
}

pub open spec fn spec_toml_array_kv_opt(key: Seq<char>, o: Option<Vec<String>>) -> Seq<char> {
    if o is Some {
        spec_toml_array_kv(key, o->Some_0@)
    } else {
        Seq::<char>::empty()
    }
}

/// The raw kconfig entries, each under its quoted key with its stored TOML
/// rendering re-embedded verbatim.
pub open spec fn spec_config_entries(opts: Seq<KernelConfigOption>) -> Seq<char>
    decreases opts.len(),
{
    if opts.len() == 0 {
        Seq::empty()
    } else {
        spec_config_entries(opts.drop_last()) + "\""@ + spec_toml_escape(opts.last().name@)
            + "\" = "@ + opts.last().value@ + "\n"@
    }
}

pub open spec fn spec_kernel_config_toml(o: Option<Vec<KernelConfigOption>>) -> Seq<char> {
    if o is Some {
        "[kernel.config]\n"@ + spec_config_entries(o->Some_0@)
    } else {
        Seq::<char>::empty()
    }
}

pub open spec fn spec_kernel_toml(k: KernelConfig) -> Seq<char> {
    "[kernel]\n"@ + spec_toml_kv_opt("prebuild"@, k.prebuild) + spec_toml_kv_opt(
        "version"@,
        k.version,
    ) + spec_toml_kv_opt("rev"@, k.rev) + spec_toml_kv_opt("repo"@, k.repo)
        + spec_toml_array_kv_opt("flavors"@, k.flavors) + spec_kernel_config_toml(k.config)
}

pub open spec fn spec_devices_toml(o: Option<XfstestsDevices>) -> Seq<char> {
    if o is Some {
        let d = o->Some_0;
        "[xfstests.devices]\n"@ + spec_toml_kv_opt("test"@, d.test) + spec_toml_kv_opt(
            "test_rtdev"@,
            d.test_rtdev,
        ) + spec_toml_kv_opt("test_logdev"@, d.test_logdev) + spec_toml_kv_opt("scratch"@, d.scratch)
            + spec_toml_kv_opt("scratch_rtdev"@, d.scratch_rtdev) + spec_toml_kv_opt(
            "scratch_logdev"@,
            d.scratch_logdev,
        )
    } else {
        Seq::<char>::empty()
    }
}

pub open spec fn spec_headers_toml(header: Seq<char>, o: Option<KernelHeaders>) -> Seq<char> {
    if o is Some {
        let h = o->Some_0;
        header + spec_toml_kv_opt("version"@, h.version) + spec_toml_kv_opt("rev"@, h.rev)
            + spec_toml_kv_opt("repo"@, h.repo)
    } else {
        Seq::<char>::empty()
    }
}

pub open spec fn spec_xfstests_toml(x: XfstestsConfig) -> Seq<char> {
    "[xfstests]\n"@ + spec_toml_kv_opt("repo"@, x.repo) + spec_toml_kv_opt("rev"@, x.rev)
        + spec_toml_kv_opt("args"@, x.args) + spec_toml_kv_opt("extra_env"@, x.extra_env)
        + spec_toml_kv_opt("filesystem"@, x.filesystem) + spec_toml_kv_opt("hooks"@, x.hooks)
        + spec_devices_toml(x.devices) + spec_headers_toml(
        "[xfstests.kernel_headers]\n"@,
        x.kernel_headers,
    )
}

pub open spec fn spec_xfsprogs_toml(x: XfsprogsConfig) -> Seq<char> {
    "[xfsprogs]\n"@ + spec_toml_kv_opt("repo"@, x.repo) + spec_toml_kv_opt("rev"@, x.rev)
        + spec_headers_toml("[xfsprogs.kernel_headers]\n"@, x.kernel_headers)
}

pub open spec fn spec_script_toml(o: Option<ScriptConfig>) -> Seq<char> {
    if o is Some {
        "[script]\n"@ + spec_toml_kv("script"@, o->Some_0.script@)
    } else {
        Seq::<char>::empty()
    }
}

pub open spec fn spec_qemu_toml(o: Option<QemuConfig>) -> Seq<char> {
    if o is Some {
        "[qemu]\n"@ + spec_toml_array_kv_opt("options"@, o->Some_0.options)
    } else {
        Seq::<char>::empty()
    }
}

/// The serialized settings document: the flat keys, then one table section
/// per present part, sub-tables after their parent's flat keys.
pub open spec fn spec_toml_text(c: Config) -> Seq<char> {
    spec_toml_kv_opt("name"@, c.name) + spec_toml_array_kv_opt("packages"@, c.packages) + (
    if c.kernel is Some {
        spec_kernel_toml(c.kernel->Some_0)
    } else {
        Seq::<char>::empty()
    }) + (if c.xfstests is Some {
        spec_xfstests_toml(c.xfstests->Some_0)
    } else {
        Seq::<char>::empty()
    }) + (if c.xfsprogs is Some {
        spec_xfsprogs_toml(c.xfsprogs->Some_0)
    } else {
        Seq::<char>::empty()
    }) + spec_script_toml(c.script) + spec_qemu_toml(c.qemu)
}

/// Escapes a string for embedding in a TOML basic string.
fn toml_escape(s: &str) -> (r: String)
    ensures
        r@ == spec_toml_escape(s@),
{
    let n = s.unicode_len();
    let mut out = String::new();
    let mut i: usize = 0;
    while i < n
        invariant
            i <= n == s@.len(),
            out@ == spec_toml_escape(s@.take(i as int)),
        decreases n - i,
    {
        let c = s.get_char(i);
        if c == '"' {
            push_char(&mut out, '\\');
            push_char(&mut out, '"');
        } else if c == '\\' {
            push_char(&mut out, '\\');
            push_char(&mut out, '\\');
        } else if c == '\n' {
            push_char(&mut out, '\\');
            push_char(&mut out, 'n');
        } else if c == '\t' {
            push_char(&mut out, '\\');
            push_char(&mut out, 't');
        } else if c == '\r' {
            push_char(&mut out, '\\');
            push_char(&mut out, 'r');
        } else {
            push_char(&mut out, c);
        }
        proof {
            assert(s@.take(i + 1 as int).drop_last() =~= s@.take(i as int));
            assert(s@.take(i + 1 as int).last() == s@[i as int]);
            assert(out@ =~= spec_toml_escape(s@.take(i + 1 as int)));
        }
        i += 1;
    }
    proof {
        assert(s@.take(n as int) =~= s@);
    }
    out
}

fn append_toml_kv(out: &mut String, key: &str, value: &str)
    ensures
        final(out)@ == old(out)@ + spec_toml_kv(key@, value@),
{
    out.append(key);
    out.append(" = \"");
    let esc = toml_escape(value);
    out.append(esc.as_str());
    out.append("\"\n");
    proof {
        assert(out@ =~= old(out)@ + spec_toml_kv(key@, value@));
    }
}

fn append_toml_kv_opt(out: &mut String, key: &str, o: &Option<String>)
    ensures
        final(out)@ == old(out)@ + spec_toml_kv_opt(key@, *o),
{
    match o {
        Some(v) => append_toml_kv(out, key, v.as_str()),
        None => {
            proof {
                lemma_add_empty(old(out)@);
            }
        },
    }
}

fn append_toml_array_kv(out: &mut String, key: &str, items: &Vec<String>)
    ensures
        final(out)@ == old(out)@ + spec_toml_array_kv(key@, items@),
{
    out.append(key);
    out.append(" = [");
    let mut i: usize = 0;
    while i < items.len()
        invariant
            i <= items.len(),
            out@ == old(out)@ + key@ + " = ["@ + spec_toml_items(items@.take(i as int)),
        decreases items.len() - i,
    {
        if i > 0 {
            out.append(", \"");
        } else {
            out.append("\"");
        }
        let esc = toml_escape(items[i].as_str());
        out.append(esc.as_str());
        out.append("\"");
        proof {
            assert(items@.take(i + 1 as int).drop_last() =~= items@.take(i as int));
            assert(items@.take(i + 1 as int).last() == items@[i as int]);
            if i == 0 {
                assert(items@.take(1int)[0] == items@[0]);
            }
            assert(out@ =~= old(out)@ + key@ + " = ["@ + spec_toml_items(
                items@.take(i + 1 as int),
            ));
        }
        i += 1;
    }
    out.append("]\n");
    proof {
        assert(items@.take(items.len() as int) =~= items@);
        assert(out@ =~= old(out)@ + spec_toml_array_kv(key@, items@));
    }
}

fn append_toml_array_kv_opt(out: &mut String, key: &str, o: &Option<Vec<String>>)
    ensures
        final(out)@ == old(out)@ + spec_toml_array_kv_opt(key@, *o),
{
    match o {
        Some(items) => append_toml_array_kv(out, key, items),
        None => {
            proof {
                lemma_add_empty(old(out)@);
            }
        },
    }
}

fn append_kernel_config_toml(out: &mut String, o: &Option<Vec<KernelConfigOption>>)
    ensures
        final(out)@ == old(out)@ + spec_kernel_config_toml(*o),
{
    match o {
        Some(opts) => {
            out.append("[kernel.config]\n");
            let ghost base = out@;
            let mut i: usize = 0;
            while i < opts.len()
                invariant
                    i <= opts.len(),
                    out@ == base + spec_config_entries(opts@.take(i as int)),
                    base == old(out)@ + "[kernel.config]\n"@,
                decreases opts.len() - i,
            {
                out.append("\"");
                let esc = toml_escape(opts[i].name.as_str());
                out.append(esc.as_str());
                out.append("\" = ");
                out.append(opts[i].value.as_str());
                out.append("\n");
                proof {
                    assert(opts@.take(i + 1 as int).drop_last() =~= opts@.take(i as int));
                    assert(opts@.take(i + 1 as int).last() == opts@[i as int]);
                    assert(out@ =~= base + spec_config_entries(opts@.take(i + 1 as int)));
                }
                i += 1;
            }
            proof {
                assert(opts@.take(opts.len() as int) =~= opts@);
                lemma_add_assoc(old(out)@, "[kernel.config]\n"@, spec_config_entries(opts@));
                assert(out@ == old(out)@ + spec_kernel_config_toml(*o));
            }
        },
        None => {
            proof {
                lemma_add_empty(old(out)@);
            }
        },
    }
}

fn append_kernel_toml(out: &mut String, k: &KernelConfig)
    ensures
        final(out)@ == old(out)@ + spec_kernel_toml(*k),
{
    let ghost s1 = "[kernel]\n"@;
    let ghost s2 = spec_toml_kv_opt("prebuild"@, k.prebuild);
    let ghost s3 = spec_toml_kv_opt("version"@, k.version);
    let ghost s4 = spec_toml_kv_opt("rev"@, k.rev);
    let ghost s5 = spec_toml_kv_opt("repo"@, k.repo);
    let ghost s6 = spec_toml_array_kv_opt("flavors"@, k.flavors);
    let ghost s7 = spec_kernel_config_toml(k.config);
    out.append("[kernel]\n");
    append_toml_kv_opt(out, "prebuild", &k.prebuild);
    proof {
        lemma_add_assoc(old(out)@, s1, s2);
        assert(out@ == old(out)@ + (s1 + s2));
    }
    append_toml_kv_opt(out, "version", &k.version);
    proof {
        lemma_add_assoc(old(out)@, s1 + s2, s3);
        assert(out@ == old(out)@ + (s1 + s2 + s3));
    }
    append_toml_kv_opt(out, "rev", &k.rev);
    proof {
        lemma_add_assoc(old(out)@, s1 + s2 + s3, s4);
        assert(out@ == old(out)@ + (s1 + s2 + s3 + s4));
    }
    append_toml_kv_opt(out, "repo", &k.repo);
    proof {
        lemma_add_assoc(old(out)@, s1 + s2 + s3 + s4, s5);
        assert(out@ == old(out)@ + (s1 + s2 + s3 + s4 + s5));
    }
    append_toml_array_kv_opt(out, "flavors", &k.flavors);
    proof {
        lemma_add_assoc(old(out)@, s1 + s2 + s3 + s4 + s5, s6);
        assert(out@ == old(out)@ + (s1 + s2 + s3 + s4 + s5 + s6));
    }
    append_kernel_config_toml(out, &k.config);
    proof {
        lemma_add_assoc(old(out)@, s1 + s2 + s3 + s4 + s5 + s6, s7);
        assert(out@ == old(out)@ + (s1 + s2 + s3 + s4 + s5 + s6 + s7));
        assert(spec_kernel_toml(*k) == s1 + s2 + s3 + s4 + s5 + s6 + s7);
    }
}

fn append_headers_toml(out: &mut String, header: &str, o: &Option<KernelHeaders>)
    ensures
        final(out)@ == old(out)@ + spec_headers_toml(header@, *o),
{
    match o {
        Some(h) => {
            let ghost s1 = header@;
            let ghost s2 = spec_toml_kv_opt("version"@, h.version);
            let ghost s3 = spec_toml_kv_opt("rev"@, h.rev);
            let ghost s4 = spec_toml_kv_opt("repo"@, h.repo);
            out.append(header);
            append_toml_kv_opt(out, "version", &h.version);
            proof {
                lemma_add_assoc(old(out)@, s1, s2);
                assert(out@ == old(out)@ + (s1 + s2));
            }
            append_toml_kv_opt(out, "rev", &h.rev);
            proof {
                lemma_add_assoc(old(out)@, s1 + s2, s3);
                assert(out@ == old(out)@ + (s1 + s2 + s3));
            }
            append_toml_kv_opt(out, "repo", &h.repo);
            proof {
                lemma_add_assoc(old(out)@, s1 + s2 + s3, s4);
                assert(out@ == old(out)@ + (s1 + s2 + s3 + s4));
                assert(spec_headers_toml(header@, *o) == s1 + s2 + s3 + s4);
            }
        },
        None => {
            proof {
                lemma_add_empty(old(out)@);
            }
        },
    }
}

fn append_devices_toml(out: &mut String, o: &Option<XfstestsDevices>)
    ensures
        final(out)@ == old(out)@ + spec_devices_toml(*o),
{
    match o {
        Some(d) => {
            let ghost s1 = "[xfstests.devices]\n"@;
            let ghost s2 = spec_toml_kv_opt("test"@, d.test);
            let ghost s3 = spec_toml_kv_opt("test_rtdev"@, d.test_rtdev);
            let ghost s4 = spec_toml_kv_opt("test_logdev"@, d.test_logdev);
            let ghost s5 = spec_toml_kv_opt("scratch"@, d.scratch);
            let ghost s6 = spec_toml_kv_opt("scratch_rtdev"@, d.scratch_rtdev);
            let ghost s7 = spec_toml_kv_opt("scratch_logdev"@, d.scratch_logdev);
            out.append("[xfstests.devices]\n");
            append_toml_kv_opt(out, "test", &d.test);
            proof {
                lemma_add_assoc(old(out)@, s1, s2);
                assert(out@ == old(out)@ + (s1 + s2));
            }
            append_toml_kv_opt(out, "test_rtdev", &d.test_rtdev);
            proof {
                lemma_add_assoc(old(out)@, s1 + s2, s3);
                assert(out@ == old(out)@ + (s1 + s2 + s3));
            }
            append_toml_kv_opt(out, "test_logdev", &d.test_logdev);
            proof {
                lemma_add_assoc(old(out)@, s1 + s2 + s3, s4);
                assert(out@ == old(out)@ + (s1 + s2 + s3 + s4));
            }
            append_toml_kv_opt(out, "scratch", &d.scratch);
            proof {
                lemma_add_assoc(old(out)@, s1 + s2 + s3 + s4, s5);
                assert(out@ == old(out)@ + (s1 + s2 + s3 + s4 + s5));
            }
            append_toml_kv_opt(out, "scratch_rtdev", &d.scratch_rtdev);
            proof {
                lemma_add_assoc(old(out)@, s1 + s2 + s3 + s4 + s5, s6);
                assert(out@ == old(out)@ + (s1 + s2 + s3 + s4 + s5 + s6));
            }
            append_toml_kv_opt(out, "scratch_logdev", &d.scratch_logdev);
            proof {
                lemma_add_assoc(old(out)@, s1 + s2 + s3 + s4 + s5 + s6, s7);
                assert(out@ == old(out)@ + (s1 + s2 + s3 + s4 + s5 + s6 + s7));
                assert(spec_devices_toml(*o) == s1 + s2 + s3 + s4 + s5 + s6 + s7);
            }
        },
        None => {
            proof {
                lemma_add_empty(old(out)@);
            }
        },
    }
}

fn append_xfstests_toml(out: &mut String, x: &XfstestsConfig)
    ensures
        final(out)@ == old(out)@ + spec_xfstests_toml(*x),
{
    let ghost s1 = "[xfstests]\n"@;
    let ghost s2 = spec_toml_kv_opt("repo"@, x.repo);
    let ghost s3 = spec_toml_kv_opt("rev"@, x.rev);
    let ghost s4 = spec_toml_kv_opt("args"@, x.args);
    let ghost s5 = spec_toml_kv_opt("extra_env"@, x.extra_env);
    let ghost s6 = spec_toml_kv_opt("filesystem"@, x.filesystem);
    let ghost s7 = spec_toml_kv_opt("hooks"@, x.hooks);
    let ghost s8 = spec_devices_toml(x.devices);
    let ghost s9 = spec_headers_toml("[xfstests.kernel_headers]\n"@, x.kernel_headers);
    out.append("[xfstests]\n");
    append_toml_kv_opt(out, "repo", &x.repo);
    proof {
        lemma_add_assoc(old(out)@, s1, s2);
        assert(out@ == old(out)@ + (s1 + s2));
    }
    append_toml_kv_opt(out, "rev", &x.rev);
    proof {
        lemma_add_assoc(old(out)@, s1 + s2, s3);
        assert(out@ == old(out)@ + (s1 + s2 + s3));
    }
    append_toml_kv_opt(out, "args", &x.args);
    proof {
        lemma_add_assoc(old(out)@, s1 + s2 + s3, s4);
        assert(out@ == old(out)@ + (s1 + s2 + s3 + s4));
    }
    append_toml_kv_opt(out, "extra_env", &x.extra_env);
    proof {
        lemma_add_assoc(old(out)@, s1 + s2 + s3 + s4, s5);
        assert(out@ == old(out)@ + (s1 + s2 + s3 + s4 + s5));
    }
    append_toml_kv_opt(out, "filesystem", &x.filesystem);
    proof {
        lemma_add_assoc(old(out)@, s1 + s2 + s3 + s4 + s5, s6);
        assert(out@ == old(out)@ + (s1 + s2 + s3 + s4 + s5 + s6));
    }
    append_toml_kv_opt(out, "hooks", &x.hooks);
    proof {
        lemma_add_assoc(old(out)@, s1 + s2 + s3 + s4 + s5 + s6, s7);
        assert(out@ == old(out)@ + (s1 + s2 + s3 + s4 + s5 + s6 + s7));
    }
    append_devices_toml(out, &x.devices);
    proof {
        lemma_add_assoc(old(out)@, s1 + s2 + s3 + s4 + s5 + s6 + s7, s8);
        assert(out@ == old(out)@ + (s1 + s2 + s3 + s4 + s5 + s6 + s7 + s8));
    }
    append_headers_toml(out, "[xfstests.kernel_headers]\n", &x.kernel_headers);
    proof {
        lemma_add_assoc(old(out)@, s1 + s2 + s3 + s4 + s5 + s6 + s7 + s8, s9);
        assert(out@ == old(out)@ + (s1 + s2 + s3 + s4 + s5 + s6 + s7 + s8 + s9));
        assert(spec_xfstests_toml(*x) == s1 + s2 + s3 + s4 + s5 + s6 + s7 + s8 + s9);
    }
}

fn append_xfsprogs_toml(out: &mut String, x: &XfsprogsConfig)
    ensures
        final(out)@ == old(out)@ + spec_xfsprogs_toml(*x),
{
    let ghost s1 = "[xfsprogs]\n"@;
    let ghost s2 = spec_toml_kv_opt("repo"@, x.repo);
    let ghost s3 = spec_toml_kv_opt("rev"@, x.rev);
    let ghost s4 = spec_headers_toml("[xfsprogs.kernel_headers]\n"@, x.kernel_headers);
    out.append("[xfsprogs]\n");
    append_toml_kv_opt(out, "repo", &x.repo);
    proof {
        lemma_add_assoc(old(out)@, s1, s2);
        assert(out@ == old(out)@ + (s1 + s2));
    }
    append_toml_kv_opt(out, "rev", &x.rev);
    proof {
        lemma_add_assoc(old(out)@, s1 + s2, s3);
        assert(out@ == old(out)@ + (s1 + s2 + s3));
    }
    append_headers_toml(out, "[xfsprogs.kernel_headers]\n", &x.kernel_headers);
    proof {
        lemma_add_assoc(old(out)@, s1 + s2 + s3, s4);
        assert(out@ == old(out)@ + (s1 + s2 + s3 + s4));
        assert(spec_xfsprogs_toml(*x) == s1 + s2 + s3 + s4);
    }
}

fn append_script_toml(out: &mut String, o: &Option<ScriptConfig>)
    ensures
        final(out)@ == old(out)@ + spec_script_toml(*o),
{
    match o {
        Some(sc) => {
            out.append("[script]\n");
            append_toml_kv(out, "script", sc.script.as_str());
            proof {
                lemma_add_assoc(
                    old(out)@,
                    "[script]\n"@,
                    spec_toml_kv("script"@, sc.script@),
                );
                assert(out@ == old(out)@ + spec_script_toml(*o));
            }
        },
        None => {
            proof {
                lemma_add_empty(old(out)@);
            }
        },
    }
}

fn append_qemu_toml(out: &mut String, o: &Option<QemuConfig>)
    ensures
        final(out)@ == old(out)@ + spec_qemu_toml(*o),
{
    match o {
        Some(q) => {
            out.append("[qemu]\n");
            append_toml_array_kv_opt(out, "options", &q.options);
            proof {
                lemma_add_assoc(
                    old(out)@,
                    "[qemu]\n"@,
                    spec_toml_array_kv_opt("options"@, q.options),
                );
                assert(out@ == old(out)@ + spec_qemu_toml(*o));
            }
        },
        None => {
            proof {
                lemma_add_empty(old(out)@);
            }
        },
    }
}

impl Config {
    /// Serializes the configuration back to settings-file text.  The output
    /// reparses: every field this writer emits is a field that
    /// [`Config::from_table`] reads.
    pub fn to_toml_string(&self) -> (r: String)
        ensures
            r@ == spec_toml_text(*self),
    {
        let ghost s1 = spec_toml_kv_opt("name"@, self.name);
        let ghost s2 = spec_toml_array_kv_opt("packages"@, self.packages);
        let ghost s3 = if self.kernel is Some {
            spec_kernel_toml(self.kernel->Some_0)
        } else {
            Seq::<char>::empty()
        };
        let ghost s4 = if self.xfstests is Some {
            spec_xfstests_toml(self.xfstests->Some_0)
        } else {
            Seq::<char>::empty()
        };
        let ghost s5 = if self.xfsprogs is Some {
            spec_xfsprogs_toml(self.xfsprogs->Some_0)
        } else {
            Seq::<char>::empty()
        };
        let ghost s6 = spec_script_toml(self.script);
        let ghost s7 = spec_qemu_toml(self.qemu);
        let mut out = String::new();
        append_toml_kv_opt(&mut out, "name", &self.name);
        proof {
            lemma_add_empty(s1);
            assert(out@ == s1);
        }
        append_toml_array_kv_opt(&mut out, "packages", &self.packages);
        proof {
            assert(out@ == s1 + s2);
        }
        if let Some(k) = &self.kernel {
            append_kernel_toml(&mut out, k);
        }
        proof {
            lemma_add_empty(s1 + s2);
            assert(out@ == s1 + s2 + s3);
        }
        if let Some(x) = &self.xfstests {
            append_xfstests_toml(&mut out, x);
        }
        proof {
            lemma_add_empty(s1 + s2 + s3);
            assert(out@ == s1 + s2 + s3 + s4);
        }
        if let Some(x) = &self.xfsprogs {
            append_xfsprogs_toml(&mut out, x);
        }
        proof {
            lemma_add_empty(s1 + s2 + s3 + s4);
            assert(out@ == s1 + s2 + s3 + s4 + s5);
        }
        append_script_toml(&mut out, &self.script);
        proof {
            assert(out@ == s1 + s2 + s3 + s4 + s5 + s6);
        }
        append_qemu_toml(&mut out, &self.qemu);
        proof {
            assert(out@ == s1 + s2 + s3 + s4 + s5 + s6 + s7);
            assert(spec_toml_text(*self) == s1 + s2 + s3 + s4 + s5 + s6 + s7);
        }
        out
    }
}

} // verus!
