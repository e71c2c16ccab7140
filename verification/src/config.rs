//! Module-routing configuration for one pod: the per-route module entries,
//! the aggregate configuration, and the pure transformations that the
//! annotation resolver applies to them (container-image resolution and
//! duplicate-route elimination).

use vstd::prelude::*;

verus! {

/// Identity of a pod: namespace plus pod name. The registry key.
#[derive(Debug)]
pub struct PodKey {
    pub namespace: String,
    pub name: String,
}

/// Mathematical model of a [`PodKey`].
#[verifier::ext_equal]
pub ghost struct PodKeyV {
    pub namespace: Seq<char>,
    pub name: Seq<char>,
}

impl View for PodKey {
    type V = PodKeyV;

    open spec fn view(&self) -> PodKeyV {
        PodKeyV { namespace: self.namespace@, name: self.name@ }
    }
}

impl PodKey {
    pub fn new(namespace: &str, name: &str) -> (r: PodKey)
        ensures
            r@.namespace == namespace@,
            r@.name == name@,
    {
        PodKey { namespace: String::from_str(namespace), name: String::from_str(name) }
    }

    /// Whether two keys denote the same pod.
    pub fn same_pod(&self, other: &PodKey) -> (r: bool)
        ensures
            r == (self@.namespace == other@.namespace && self@.name == other@.name),
    {
        self.namespace == other.namespace && self.name == other.name
    }
}

/// One container of the pod manifest, reduced to what resolution reads:
/// its name and, when one could be resolved, its image reference.
#[derive(Debug)]
pub struct Container {
    pub name: String,
    pub image: Option<String>,
}

/// Mathematical model of a [`Container`].
#[verifier::ext_equal]
pub ghost struct ContainerV {
    pub name: Seq<char>,
    pub image: Option<Seq<char>>,
}

impl View for Container {
    type V = ContainerV;

    open spec fn view(&self) -> ContainerV {
        ContainerV { name: self.name@, image: self.image.deep_view() }
    }
}

/// One routable unit: a WAGI module bound to a route. Two values are equal
/// exactly when their routes are equal; the route is the identity that the
/// router indexes on, the other fields do not take part.
#[derive(Debug)]
pub struct WagiModuleConfig {
    pub entrypoint: Option<String>,
    pub route: String,
    pub allowed_hosts: Option<Vec<String>>,
    pub module: String,
}

/// Mathematical model of a [`WagiModuleConfig`].
#[verifier::ext_equal]
pub ghost struct WagiModuleConfigV {
    pub entrypoint: Option<Seq<char>>,
    pub route: Seq<char>,
    pub allowed_hosts: Option<Seq<Seq<char>>>,
    pub module: Seq<char>,
}

impl View for WagiModuleConfig {
    type V = WagiModuleConfigV;

    open spec fn view(&self) -> WagiModuleConfigV {
        WagiModuleConfigV {
            entrypoint: self.entrypoint.deep_view(),
            route: self.route@,
            allowed_hosts: self.allowed_hosts.deep_view(),
            module: self.module@,
        }
    }
}

impl PartialEq for WagiModuleConfig {
    /// Equality is route equality, whatever the other fields hold.
    fn eq(&self, other: &Self) -> (r: bool) {
        self.route == other.route
    }
}

impl Eq for WagiModuleConfig {}

impl vstd::std_specs::cmp::PartialEqSpecImpl for WagiModuleConfig {
    open spec fn obeys_eq_spec() -> bool {
        true
    }

    open spec fn eq_spec(&self, other: &Self) -> bool {
        self.route@ == other.route@
    }
}

/// Law: two module configurations are equal exactly when their routes are,
/// regardless of every other field.
pub proof fn lemma_module_eq_is_route_eq(a: WagiModuleConfig, b: WagiModuleConfig)
    ensures
        vstd::std_specs::cmp::PartialEqSpec::eq_spec(&a, &b) <==> a@.route == b@.route,
{
}

impl WagiModuleConfig {
    /// Copy of the value, field by field.
    pub fn duplicate(&self) -> (r: WagiModuleConfig)
        ensures
            r@ == self@,
    {
        WagiModuleConfig {
            entrypoint: match &self.entrypoint {
                Option::Some(s) => Option::Some(s.clone()),
                Option::None => Option::None,
            },
            route: self.route.clone(),
            allowed_hosts: match &self.allowed_hosts {
                Option::Some(v) => Option::Some(clone_string_vec(v)),
                Option::None => Option::None,
            },
            module: self.module.clone(),
        }
    }
}

/// Copy of a vector of strings, element by element.
pub fn clone_string_vec(v: &Vec<String>) -> (r: Vec<String>)
    ensures
        r.deep_view() == v.deep_view(),
{
    let mut out: Vec<String> = Vec::new();
    let mut i: usize = 0;
    while i < v.len()
        invariant
            i <= v.len(),
            out.deep_view() =~= v.deep_view().take(i as int),
        decreases v.len() - i,
    {
        assert(out.deep_view() == v.deep_view().take(i as int));
        assert(out.deep_view().len() == i as int);
        assert(out@.len() == i as int);
        out.push(v[i].clone());
        assert(out@.len() == i + 1);
        assert(out.deep_view().len() == out@.len());
        assert(v.deep_view().take(i as int + 1).len() == i + 1);
        assert(out.deep_view()[i as int] == v@[i as int]@);
        assert(v.deep_view()[i as int] == v@[i as int]@);
        assert(out.deep_view() =~~= v.deep_view().take(i as int + 1));
        i += 1;
    }
    assert(out.deep_view() =~~= v.deep_view());
    out
}

/// Aggregate configuration for one pod: an optional bind-address override
/// plus an ordered, duplicate-route-free list of module entries.
#[derive(Debug)]
pub struct WagiModulesConfig {
    pub default_host: Option<String>,
    pub modules: Vec<WagiModuleConfig>,
}

/// Mathematical model of a [`WagiModulesConfig`].
#[verifier::ext_equal]
pub ghost struct WagiModulesConfigV {
    pub default_host: Option<Seq<char>>,
    pub modules: Seq<WagiModuleConfigV>,
}

impl View for WagiModulesConfig {
    type V = WagiModulesConfigV;

    open spec fn view(&self) -> WagiModulesConfigV {
        WagiModulesConfigV {
            default_host: self.default_host.deep_view(),
            modules: module_views(self.modules@),
        }
    }
}

/// Views of a sequence of module entries.
pub open spec fn module_views(s: Seq<WagiModuleConfig>) -> Seq<WagiModuleConfigV> {
    s.map_values(|m: WagiModuleConfig| m@)
}

/// No two entries share a route.
pub open spec fn routes_unique(s: Seq<WagiModuleConfigV>) -> bool {
    forall|i: int, j: int| 0 <= i < j < s.len() ==> s[i].route != s[j].route
}

impl WagiModulesConfigV {
    /// A well-formed configuration never carries two entries for one route.
    pub open spec fn wf(self) -> bool {
        routes_unique(self.modules)
    }
}

/// Entry `i` survives duplicate-route elimination: no later entry claims
/// the same route.
pub open spec fn keeps_route(s: Seq<WagiModuleConfigV>, i: int) -> bool {
    forall|j: int| i < j < s.len() ==> s[j].route != s[i].route
}

/// Duplicate-route elimination over the first `k` entries: an entry is kept
/// exactly when it is the last of its route, so on duplicates the last write
/// wins; kept entries stay in input order.
pub open spec fn dedup_routes_prefix(s: Seq<WagiModuleConfigV>, k: int) -> Seq<WagiModuleConfigV>
    decreases k,
{
    if k <= 0 {
        Seq::empty()
    } else if keeps_route(s, k - 1) {
        dedup_routes_prefix(s, k - 1).push(s[k - 1])
    } else {
        dedup_routes_prefix(s, k - 1)
    }
}

/// Duplicate-route elimination over a whole module list.
pub open spec fn dedup_routes(s: Seq<WagiModuleConfigV>) -> Seq<WagiModuleConfigV> {
    dedup_routes_prefix(s, s.len() as int)
}

/// The entry `e` is the last-written entry of its route among the first `k`
/// entries of `s`.
pub open spec fn is_last_of_route(s: Seq<WagiModuleConfigV>, e: WagiModuleConfigV, k: int) -> bool {
    exists|i: int| 0 <= i < k && e == s[i] && keeps_route(s, i)
}

proof fn lemma_dedup_prefix_props(s: Seq<WagiModuleConfigV>, k: int)
    requires
        0 <= k <= s.len(),
    ensures
        routes_unique(dedup_routes_prefix(s, k)),
        forall|m: int| 0 <= m < dedup_routes_prefix(s, k).len() ==> is_last_of_route(
            s,
            #[trigger] dedup_routes_prefix(s, k)[m],
            k,
        ),
    decreases k,
{
    if k > 0 {
        lemma_dedup_prefix_props(s, k - 1);
        let dp = dedup_routes_prefix(s, k - 1);
        let d = dedup_routes_prefix(s, k);
        assert forall|m: int| 0 <= m < d.len() implies is_last_of_route(s, #[trigger] d[m], k) by {
            if m < dp.len() {
                assert(is_last_of_route(s, dp[m], k - 1));
                let i = choose|i: int| 0 <= i < k - 1 && dp[m] == s[i] && keeps_route(s, i);
                assert(0 <= i < k && d[m] == s[i] && keeps_route(s, i));
            } else {
                assert(keeps_route(s, k - 1) && d[m] == s[k - 1]);
            }
        }
        assert forall|m: int, n: int| 0 <= m < n < d.len() implies d[m].route != d[n].route by {
            if n < dp.len() {
                assert(dp[m].route != dp[n].route);
            } else {
                assert(is_last_of_route(s, dp[m], k - 1));
                let i = choose|i: int| 0 <= i < k - 1 && dp[m] == s[i] && keeps_route(s, i);
                assert(keeps_route(s, k - 1) && d[n] == s[k - 1]);
                assert(s[k - 1].route != s[i].route);
            }
        }
    }
}

proof fn lemma_dedup_prefix_contains(s: Seq<WagiModuleConfigV>, i: int, k: int)
    requires
        0 <= i < k <= s.len(),
        keeps_route(s, i),
    ensures
        dedup_routes_prefix(s, k).contains(s[i]),
    decreases k,
{
    let d = dedup_routes_prefix(s, k);
    if i == k - 1 {
        assert(d.last() == s[i]);
        assert(d[d.len() - 1] == s[i]);
    } else {
        lemma_dedup_prefix_contains(s, i, k - 1);
        let dp = dedup_routes_prefix(s, k - 1);
        let m = choose|m: int| 0 <= m < dp.len() && dp[m] == s[i];
        assert(d[m] == s[i]);
    }
}

/// Law: duplicate-route elimination keeps exactly one entry per route. The
/// survivors are precisely the last-written entry of each route, in input
/// order, so the outcome is deterministic in the input order alone.
pub proof fn lemma_dedup_routes_last_write(s: Seq<WagiModuleConfigV>)
    ensures
        routes_unique(dedup_routes(s)),
        forall|i: int| 0 <= i < s.len() && keeps_route(s, i) ==> dedup_routes(s).contains(s[i]),
        forall|m: int| 0 <= m < dedup_routes(s).len() ==> is_last_of_route(
            s,
            #[trigger] dedup_routes(s)[m],
            s.len() as int,
        ),
{
    lemma_dedup_prefix_props(s, s.len() as int);
    assert forall|i: int| 0 <= i < s.len() && keeps_route(s, i) implies dedup_routes(s).contains(
        s[i],
    ) by {
        lemma_dedup_prefix_contains(s, i, s.len() as int);
    }
}

/// Removes all but the last entry of each route, keeping input order.
pub fn dedup_modules(modules: &Vec<WagiModuleConfig>) -> (r: Vec<WagiModuleConfig>)
    ensures
        module_views(r@) == dedup_routes(module_views(modules@)),
        routes_unique(module_views(r@)),
{
    let ghost sv = module_views(modules@);
    let mut out: Vec<WagiModuleConfig> = Vec::new();
    let mut i: usize = 0;
    while i < modules.len()
        invariant
            i <= modules.len(),
            sv == module_views(modules@),
            module_views(out@) =~= dedup_routes_prefix(sv, i as int),
        decreases modules.len() - i,
    {
        let mut later: bool = false;
        let mut j: usize = i + 1;
        while j < modules.len()
            invariant
                i < modules.len(),
                i + 1 <= j <= modules.len(),
                sv == module_views(modules@),
                later <==> exists|t: int| i < t < j && #[trigger] sv[t].route == sv[i as int].route,
            decreases modules.len() - j,
        {
            proof {
                assert(sv[j as int] == modules@[j as int]@);
                assert(sv[i as int] == modules@[i as int]@);
            }
            if modules[j].route == modules[i].route {
                later = true;
                assert(sv[j as int].route == sv[i as int].route);
            } else {
                assert(sv[j as int].route != sv[i as int].route);
            }
            j += 1;
        }
        assert(later <==> !keeps_route(sv, i as int));
        if !later {
            out.push(modules[i].duplicate());
        }
        assert(module_views(out@) =~= dedup_routes_prefix(sv, i + 1 as int));
        i += 1;
    }
    proof {
        lemma_dedup_prefix_props(sv, sv.len() as int);
    }
    out
}

/// The image of the last container with the given name that carries one,
/// if any container does.
pub open spec fn last_image(cs: Seq<ContainerV>, name: Seq<char>) -> Option<Seq<char>>
    decreases cs.len(),
{
    if cs.len() == 0 {
        Option::None
    } else if cs.last().name == name && cs.last().image is Some {
        cs.last().image
    } else {
        last_image(cs.drop_last(), name)
    }
}

/// The entry with its module locator replaced.
pub open spec fn with_module(m: WagiModuleConfigV, module: Seq<char>) -> WagiModuleConfigV {
    WagiModuleConfigV { module, ..m }
}

/// One named entry after container-image resolution: when some container of
/// the same name carries an image, the module locator becomes
/// `oci://<image>` for the last such container; otherwise the entry is
/// untouched.
pub open spec fn resolved_entry(
    entry: (Seq<char>, WagiModuleConfigV),
    cs: Seq<ContainerV>,
) -> (Seq<char>, WagiModuleConfigV) {
    match last_image(cs, entry.0) {
        Option::Some(img) => (entry.0, with_module(entry.1, "oci://"@ + img)),
        Option::None => entry,
    }
}

/// Container-image resolution over a whole name-keyed module map.
pub open spec fn apply_images_spec(
    named: Seq<(Seq<char>, WagiModuleConfigV)>,
    cs: Seq<ContainerV>,
) -> Seq<(Seq<char>, WagiModuleConfigV)> {
    Seq::new(named.len(), |i: int| resolved_entry(named[i], cs))
}

/// Law: of the entries of a module map, exactly those whose name matches a
/// container with a resolvable image receive an `oci://<image>` locator, and
/// every other entry keeps its module value; names, order, entry count and
/// all other fields are unchanged.
pub proof fn lemma_apply_images(named: Seq<(Seq<char>, WagiModuleConfigV)>, cs: Seq<ContainerV>)
    ensures
        apply_images_spec(named, cs).len() == named.len(),
        forall|i: int| 0 <= i < named.len() ==> #[trigger] apply_images_spec(named, cs)[i].0
            == named[i].0,
        forall|i: int| 0 <= i < named.len() && last_image(cs, named[i].0) is Some
            ==> #[trigger] apply_images_spec(named, cs)[i].1 == with_module(
            named[i].1,
            "oci://"@ + last_image(cs, named[i].0).unwrap(),
        ),
        forall|i: int| 0 <= i < named.len() && last_image(cs, named[i].0) is None
            ==> #[trigger] apply_images_spec(named, cs)[i].1 == named[i].1,
{
}

/// Views of a name-keyed module map.
pub open spec fn named_views(s: Seq<(String, WagiModuleConfig)>) -> Seq<(Seq<char>, WagiModuleConfigV)> {
    s.map_values(|p: (String, WagiModuleConfig)| (p.0@, p.1@))
}

/// The image of the last matching container, executable form.
fn last_container_image(containers: &Vec<Container>, name: &String) -> (r: Option<String>)
    ensures
        r.deep_view() == last_image(containers@.map_values(|c: Container| c@), name@),
{
    let ghost cs = containers@.map_values(|c: Container| c@);
    let mut found: Option<String> = Option::None;
    let mut j: usize = 0;
    while j < containers.len()
        invariant
            j <= containers.len(),
            cs == containers@.map_values(|c: Container| c@),
            found.deep_view() == last_image(cs.take(j as int), name@),
        decreases containers.len() - j,
    {
        match &containers[j].image {
            Option::Some(img) => {
                if containers[j].name == *name {
                    found = Option::Some(img.clone());
                }
            },
            Option::None => {},
        }
        proof {
            assert(cs.take(j + 1 as int).drop_last() =~= cs.take(j as int));
            assert(cs.take(j + 1 as int).last() == cs[j as int]);
        }
        j += 1;
    }
    proof {
        assert(cs.take(containers.len() as int) =~= cs);
    }
    found
}

/// Builds the `oci://<image>` locator for a container image.
pub fn oci_locator(image: &String) -> (r: String)
    ensures
        r@ == "oci://"@ + image@,
{
    String::from_str("oci://").concat(image.as_str())
}

/// Container-image resolution: for every entry of the name-keyed module map
/// whose name matches a container with a resolvable image, the module
/// locator becomes `oci://<image>` of the last such container; entries
/// without a match are left untouched.
pub fn apply_container_images(
    named: &Vec<(String, WagiModuleConfig)>,
    containers: &Vec<Container>,
) -> (r: Vec<(String, WagiModuleConfig)>)
    ensures
        named_views(r@) == apply_images_spec(
            named_views(named@),
            containers@.map_values(|c: Container| c@),
        ),
{
    let ghost nv = named_views(named@);
    let ghost cs = containers@.map_values(|c: Container| c@);
    let mut out: Vec<(String, WagiModuleConfig)> = Vec::new();
    let mut i: usize = 0;
    while i < named.len()
        invariant
            i <= named.len(),
            nv == named_views(named@),
            cs == containers@.map_values(|c: Container| c@),
            named_views(out@) =~= apply_images_spec(nv, cs).take(i as int),
        decreases named.len() - i,
    {
        proof {
            assert(nv[i as int] == (named@[i as int].0@, named@[i as int].1@));
        }
        let name = named[i].0.clone();
        let entry = match last_container_image(containers, &name) {
            Option::Some(img) => {
                let mut m = named[i].1.duplicate();
                m.module = oci_locator(&img);
                assert(m@ =~~= with_module(nv[i as int].1, "oci://"@ + img@));
                m
            },
            Option::None => named[i].1.duplicate(),
        };
        assert((name@, entry@) =~~= resolved_entry(nv[i as int], cs));
        assert(named_views(out@).len() == i as int);
        assert(out@.len() == i as int);
        out.push((name, entry));
        assert(out@.len() == i + 1);
        assert(named_views(out@)[i as int] == (name@, entry@));
        assert(named_views(out@) =~~= apply_images_spec(nv, cs).take(i + 1 as int));
        i += 1;
    }
    proof {
        assert(apply_images_spec(nv, cs).take(named.len() as int) =~= apply_images_spec(nv, cs));
    }
    out
}

} // verus!
