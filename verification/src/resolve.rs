//! Annotation-driven module-configuration resolution: from the pod's
//! annotation map and container list to a validated [`WagiModulesConfig`],
//! or to a typed configuration error naming the offending annotation key.

use vstd::prelude::*;

use crate::config::{
    apply_container_images, apply_images_spec, dedup_modules, dedup_routes, module_views,
    named_views, Container, ContainerV, WagiModuleConfig, WagiModuleConfigV, WagiModulesConfig,
    WagiModulesConfigV,
};
use crate::json::{
    json_object_of, json_opt_string_of, json_parse_object, json_parse_opt_string,
    json_parse_string, json_parse_string_list, json_string_list_of, json_string_of,
};

verus! {

/// The pod annotation that overrides the default bind host.
pub open spec fn default_host_key() -> Seq<char> {
    "wagi.dev/default-host"@
}

/// The pod annotation that carries the module map.
pub open spec fn modules_key() -> Seq<char> {
    "wagi.dev/modules"@
}

/// The annotation key that overrides the default bind host.
pub fn default_host_annotation_key() -> (r: &'static str)
    ensures
        r@ == default_host_key(),
{
    "wagi.dev/default-host"
}

/// The annotation key that carries the module map.
pub fn modules_annotation_key() -> (r: &'static str)
    ensures
        r@ == modules_key(),
{
    "wagi.dev/modules"
}

/// A typed configuration failure, distinguishing a bad default host from a
/// bad module list from a router-build failure.
#[derive(Debug)]
pub enum ConfigError {
    /// The default-host annotation cannot be used as a bind address.
    InvalidDefaultHost { key: String, message: String },
    /// The module-map annotation does not parse.
    InvalidModuleList { key: String, message: String },
    /// The external router builder rejected the resolved configuration.
    RouterBuild { message: String },
}

/// Mathematical model of a [`ConfigError`].
#[verifier::ext_equal]
pub ghost enum ConfigErrorV {
    InvalidDefaultHost { key: Seq<char>, message: Seq<char> },
    InvalidModuleList { key: Seq<char>, message: Seq<char> },
    RouterBuild { message: Seq<char> },
}

impl View for ConfigError {
    type V = ConfigErrorV;

    open spec fn view(&self) -> ConfigErrorV {
        match self {
            ConfigError::InvalidDefaultHost { key, message } => ConfigErrorV::InvalidDefaultHost {
                key: key@,
                message: message@,
            },
            ConfigError::InvalidModuleList { key, message } => ConfigErrorV::InvalidModuleList {
                key: key@,
                message: message@,
            },
            ConfigError::RouterBuild { message } => ConfigErrorV::RouterBuild { message: message@ },
        }
    }
}

/// The status text of a configuration error: it names the offending
/// annotation key where one is to blame, and carries the underlying message.
pub open spec fn error_text(e: ConfigErrorV) -> Seq<char> {
    match e {
        ConfigErrorV::InvalidDefaultHost { key, message } => "Error parsing WAGI annotation for key \""@
            + key + "\": "@ + message,
        ConfigErrorV::InvalidModuleList { key, message } => "Error parsing WAGI annotation for key \""@
            + key + "\": "@ + message,
        ConfigErrorV::RouterBuild { message } => "Error building WAGI router: "@ + message,
    }
}

impl ConfigError {
    /// The human-readable status text for this error.
    pub fn message_text(&self) -> (r: String)
        ensures
            r@ == error_text(self@),
    {
        match self {
            ConfigError::InvalidDefaultHost { key, message } => String::from_str(
                "Error parsing WAGI annotation for key \"",
            ).concat(key.as_str()).concat("\": ").concat(message.as_str()),
            ConfigError::InvalidModuleList { key, message } => String::from_str(
                "Error parsing WAGI annotation for key \"",
            ).concat(key.as_str()).concat("\": ").concat(message.as_str()),
            ConfigError::RouterBuild { message } => String::from_str(
                "Error building WAGI router: ",
            ).concat(message.as_str()),
        }
    }
}

/// The value of the last pair with the given key, if any. Annotation maps
/// and JSON objects carry unique keys, so when a key repeats the later pair
/// deliberately wins.
pub open spec fn field_lookup(
    fields: Seq<(Seq<char>, Seq<char>)>,
    key: Seq<char>,
) -> Option<Seq<char>>
    decreases fields.len(),
{
    if fields.len() == 0 {
        Option::None
    } else if fields.last().0 == key {
        Option::Some(fields.last().1)
    } else {
        field_lookup(fields.drop_last(), key)
    }
}

/// The value of the last pair with the given key, executable form.
pub fn find_field(fields: &Vec<(String, String)>, key: &str) -> (r: Option<String>)
    ensures
        r.deep_view() == field_lookup(fields.deep_view(), key@),
{
    let ghost fv = fields.deep_view();
    let mut found: Option<String> = Option::None;
    let mut j: usize = 0;
    while j < fields.len()
        invariant
            j <= fields.len(),
            fields.deep_view() == fv,
            fv.len() == fields@.len(),
            found.deep_view() == field_lookup(fv.take(j as int), key@),
        decreases fields.len() - j,
    {
        proof {
            assert(fv[j as int] == (fields@[j as int].0@, fields@[j as int].1@));
            assert(fv.take(j + 1 as int).drop_last() =~= fv.take(j as int));
            assert(fv.take(j + 1 as int).last() == fv[j as int]);
        }
        let key_owned = String::from_str(key);
        if fields[j].0 == key_owned {
            found = Option::Some(fields[j].1.clone());
        }
        j += 1;
    }
    proof {
        assert(fv.take(fields@.len() as int) =~= fv);
    }
    found
}

/// The message used when a module entry lacks its route.
pub open spec fn missing_route_text() -> Seq<char> {
    "missing field `route`"@
}

/// One module entry of the map: the value must be a JSON object whose
/// `route` member is a string (and is required), whose `entrypoint` member
/// is a string or null, and whose `allowed_hosts` member is an array of
/// strings or null; other members are ignored, and the module locator
/// starts out empty exactly as an annotation cannot set it.
pub open spec fn module_entry_of(text: Seq<char>) -> Result<WagiModuleConfigV, Seq<char>> {
    match json_object_of(text) {
        Result::Err(e) => Result::Err(e),
        Result::Ok(fields) => match field_lookup(fields, "route"@) {
            Option::None => Result::Err(missing_route_text()),
            Option::Some(route_text) => match json_string_of(route_text) {
                Result::Err(e) => Result::Err(e),
                Result::Ok(route) => {
                    let ep = match field_lookup(fields, "entrypoint"@) {
                        Option::None => Result::Ok(Option::None),
                        Option::Some(t) => json_opt_string_of(t),
                    };
                    match ep {
                        Result::Err(e) => Result::Err(e),
                        Result::Ok(entrypoint) => {
                            let ah = match field_lookup(fields, "allowed_hosts"@) {
                                Option::None => Result::Ok(Option::None),
                                Option::Some(t) => json_string_list_of(t),
                            };
                            match ah {
                                Result::Err(e) => Result::Err(e),
                                Result::Ok(allowed_hosts) => Result::Ok(
                                    WagiModuleConfigV {
                                        entrypoint,
                                        route,
                                        allowed_hosts,
                                        module: Seq::empty(),
                                    },
                                ),
                            }
                        },
                    }
                },
            },
        },
    }
}

/// Parses one module entry of the map.
pub fn parse_module_entry(text: &String) -> (r: Result<WagiModuleConfig, String>)
    ensures
        match r {
            Result::Ok(m) => module_entry_of(text@) is Ok && m@ == module_entry_of(text@)->Ok_0,
            Result::Err(e) => module_entry_of(text@) is Err && e@ == module_entry_of(text@)->Err_0,
        },
{
    let fields = match json_parse_object(text.as_str()) {
        Result::Ok(fields) => fields,
        Result::Err(e) => {
            return Result::Err(e);
        },
    };
    let route_text = match find_field(&fields, "route") {
        Option::Some(t) => t,
        Option::None => {
            return Result::Err(String::from_str("missing field `route`"));
        },
    };
    let route = match json_parse_string(route_text.as_str()) {
        Result::Ok(route) => route,
        Result::Err(e) => {
            return Result::Err(e);
        },
    };
    let entrypoint = match find_field(&fields, "entrypoint") {
        Option::None => Option::None,
        Option::Some(t) => match json_parse_opt_string(t.as_str()) {
            Result::Ok(ep) => ep,
            Result::Err(e) => {
                return Result::Err(e);
            },
        },
    };
    let allowed_hosts = match find_field(&fields, "allowed_hosts") {
        Option::None => Option::None,
        Option::Some(t) => match json_parse_string_list(t.as_str()) {
            Result::Ok(ah) => ah,
            Result::Err(e) => {
                return Result::Err(e);
            },
        },
    };
    let m = WagiModuleConfig { entrypoint, route, allowed_hosts, module: String::new() };
    assert(m@ =~~= module_entry_of(text@)->Ok_0);
    Result::Ok(m)
}

/// The name-keyed module map parsed from the first `k` members of the
/// annotation object; the first failing entry fails the whole map.
pub open spec fn module_map_prefix(entries: Seq<(Seq<char>, Seq<char>)>, k: int) -> Result<
    Seq<(Seq<char>, WagiModuleConfigV)>,
    Seq<char>,
>
    decreases k,
{
    if k <= 0 {
        Result::Ok(Seq::empty())
    } else {
        match module_map_prefix(entries, k - 1) {
            Result::Err(e) => Result::Err(e),
            Result::Ok(acc) => match module_entry_of(entries[k - 1].1) {
                Result::Err(e) => Result::Err(e),
                Result::Ok(m) => Result::Ok(acc.push((entries[k - 1].0, m))),
            },
        }
    }
}

/// The name-keyed module map parsed from the whole annotation text.
pub open spec fn module_map_of(text: Seq<char>) -> Result<
    Seq<(Seq<char>, WagiModuleConfigV)>,
    Seq<char>,
> {
    match json_object_of(text) {
        Result::Err(e) => Result::Err(e),
        Result::Ok(entries) => module_map_prefix(entries, entries.len() as int),
    }
}

/// Parses the whole module-map annotation into a name-keyed module list.
pub fn parse_module_map(text: &String) -> (r: Result<Vec<(String, WagiModuleConfig)>, String>)
    ensures
        match r {
            Result::Ok(v) => module_map_of(text@) is Ok && named_views(v@) == module_map_of(
                text@,
            )->Ok_0,
            Result::Err(e) => module_map_of(text@) is Err && e@ == module_map_of(text@)->Err_0,
        },
{
    let entries = match json_parse_object(text.as_str()) {
        Result::Ok(entries) => entries,
        Result::Err(e) => {
            return Result::Err(e);
        },
    };
    let ghost ev = entries.deep_view();
    let mut out: Vec<(String, WagiModuleConfig)> = Vec::new();
    let mut i: usize = 0;
    while i < entries.len()
        invariant
            i <= entries.len(),
            entries.deep_view() == ev,
            ev.len() == entries@.len(),
            ev == json_object_of(text@)->Ok_0,
            json_object_of(text@) is Ok,
            module_map_prefix(ev, i as int) is Ok,
            named_views(out@) == module_map_prefix(ev, i as int)->Ok_0,
        decreases entries.len() - i,
    {
        proof {
            assert(ev[i as int] == (entries@[i as int].0@, entries@[i as int].1@));
        }
        let m = match parse_module_entry(&entries[i].1) {
            Result::Ok(m) => m,
            Result::Err(e) => {
                proof {
                    lemma_module_map_prefix_err(ev, i as int, entries@.len() as int);
                }
                return Result::Err(e);
            },
        };
        let name = entries[i].0.clone();
        out.push((name, m));
        assert(named_views(out@) =~~= module_map_prefix(ev, i + 1 as int)->Ok_0);
        i += 1;
    }
    proof {
        assert(module_map_of(text@)->Ok_0 == module_map_prefix(ev, entries@.len() as int)->Ok_0);
    }
    Result::Ok(out)
}

/// A failing entry at position `i` fails every longer prefix with its
/// message, provided the shorter prefix up to `i` succeeded.
proof fn lemma_module_map_prefix_err(entries: Seq<(Seq<char>, Seq<char>)>, i: int, n: int)
    requires
        0 <= i < n <= entries.len(),
        module_map_prefix(entries, i) is Ok,
        module_entry_of(entries[i].1) is Err,
    ensures
        module_map_prefix(entries, n) is Err,
        module_map_prefix(entries, n)->Err_0 == module_entry_of(entries[i].1)->Err_0,
    decreases n,
{
    if n - 1 > i {
        lemma_module_map_prefix_err(entries, i, n - 1);
    }
}

/// The resolved configuration for a pod, from its annotation map and its
/// container list: the default host taken verbatim from its annotation; the
/// module map parsed from its annotation; container images applied as
/// `oci://` locators onto entries of the same name; and the map flattened
/// into a duplicate-route-free list in which the last write wins.
pub open spec fn resolve_spec(
    anns: Seq<(Seq<char>, Seq<char>)>,
    cs: Seq<ContainerV>,
) -> Result<WagiModulesConfigV, ConfigErrorV> {
    let default_host = field_lookup(anns, default_host_key());
    match field_lookup(anns, modules_key()) {
        Option::None => Result::Ok(
            WagiModulesConfigV { default_host, modules: Seq::empty() },
        ),
        Option::Some(text) => match module_map_of(text) {
            Result::Err(message) => Result::Err(
                ConfigErrorV::InvalidModuleList { key: modules_key(), message },
            ),
            Result::Ok(named) => Result::Ok(
                WagiModulesConfigV {
                    default_host,
                    modules: dedup_routes(
                        apply_images_spec(named, cs).map_values(
                            |p: (Seq<char>, WagiModuleConfigV)| p.1,
                        ),
                    ),
                },
            ),
        },
    }
}

/// Resolves a pod's module configuration from its annotations and its
/// containers. With no module annotation the result is an empty, valid
/// configuration; a malformed module annotation is the one failure, typed
/// and naming the annotation key; the result never carries two entries for
/// one route.
pub fn resolve_modules_config(
    annotations: &Vec<(String, String)>,
    containers: &Vec<Container>,
) -> (r: Result<WagiModulesConfig, ConfigError>)
    ensures
        match r {
            Result::Ok(c) => resolve_spec(
                annotations.deep_view(),
                containers@.map_values(|x: Container| x@),
            ) is Ok && c@ == resolve_spec(
                annotations.deep_view(),
                containers@.map_values(|x: Container| x@),
            )->Ok_0 && c@.wf(),
            Result::Err(e) => resolve_spec(
                annotations.deep_view(),
                containers@.map_values(|x: Container| x@),
            ) is Err && e@ == resolve_spec(
                annotations.deep_view(),
                containers@.map_values(|x: Container| x@),
            )->Err_0,
        },
        field_lookup(annotations.deep_view(), modules_key()) is None ==> r is Ok
            && r->Ok_0@.modules.len() == 0,
{
    let ghost av = annotations.deep_view();
    let ghost cs = containers@.map_values(|x: Container| x@);
    let default_host = find_field(annotations, default_host_annotation_key());
    let modules_text = match find_field(annotations, modules_annotation_key()) {
        Option::None => {
            let c = WagiModulesConfig { default_host, modules: Vec::new() };
            assert(c@ =~~= resolve_spec(av, cs)->Ok_0);
            return Result::Ok(c);
        },
        Option::Some(t) => t,
    };
    let named = match parse_module_map(&modules_text) {
        Result::Ok(named) => named,
        Result::Err(message) => {
            let e = ConfigError::InvalidModuleList {
                key: String::from_str(modules_annotation_key()),
                message,
            };
            assert(e@ =~~= resolve_spec(av, cs)->Err_0);
            return Result::Err(e);
        },
    };
    let resolved = apply_container_images(&named, containers);
    let flat = flatten_named(&resolved);
    let modules = dedup_modules(&flat);
    let c = WagiModulesConfig { default_host, modules };
    proof {
        assert(module_views(flat@) =~~= apply_images_spec(module_map_of(modules_text@)->Ok_0, cs)
            .map_values(|p: (Seq<char>, WagiModuleConfigV)| p.1));
        assert(c@ =~~= resolve_spec(av, cs)->Ok_0);
        crate::config::lemma_dedup_routes_last_write(module_views(flat@));
    }
    Result::Ok(c)
}

/// Drops the names from a name-keyed module list, keeping order.
pub fn flatten_named(named: &Vec<(String, WagiModuleConfig)>) -> (r: Vec<WagiModuleConfig>)
    ensures
        module_views(r@) == named_views(named@).map_values(
            |p: (Seq<char>, WagiModuleConfigV)| p.1,
        ),
{
    let ghost nv = named_views(named@);
    let mut out: Vec<WagiModuleConfig> = Vec::new();
    let mut i: usize = 0;
    while i < named.len()
        invariant
            i <= named.len(),
            named_views(named@) == nv,
            nv.len() == named@.len(),
            module_views(out@) =~= nv.map_values(|p: (Seq<char>, WagiModuleConfigV)| p.1).take(
                i as int,
            ),
        decreases named.len() - i,
    {
        proof {
            assert(nv[i as int] == (named@[i as int].0@, named@[i as int].1@));
        }
        assert(module_views(out@).len() == i as int);
        assert(out@.len() == i as int);
        out.push(named[i].1.duplicate());
        assert(out@.len() == i + 1);
        assert(module_views(out@)[i as int] == named@[i as int].1@);
        assert(nv.map_values(|p: (Seq<char>, WagiModuleConfigV)| p.1)[i as int] == nv[i as int].1);
        assert(module_views(out@) =~~= nv.map_values(
            |p: (Seq<char>, WagiModuleConfigV)| p.1,
        ).take(i + 1 as int));
        i += 1;
    }
    proof {
        assert(nv.map_values(|p: (Seq<char>, WagiModuleConfigV)| p.1).take(named@.len() as int)
            =~= nv.map_values(|p: (Seq<char>, WagiModuleConfigV)| p.1));
    }
    out
}

} // verus!
