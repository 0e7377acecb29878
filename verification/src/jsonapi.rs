//! The decisions of the JSON:API resource handlers and of their registry:
//! which operations a resource allows, how relationships are looked up and
//! reported missing, how included resources are collected without
//! duplicates, and how the id of a related resource is read back.
use vstd::prelude::*;
use crate::parse::{parse_i32, parsed_i32};
use crate::search_filter::opt_view;
use crate::string_map::TextMap;
use crate::text::{dec_int, push_i64, push_str, str_eq, string_of};

verus! {

/// The errors a JSON:API request ends in.
#[derive(Debug, Clone)]
pub enum ApiError {
    BadRequest(String),
    NotFound(String),
    MethodNotAllowed(String),
    AuthenticationFailed(String),
    AuthorizationFailed(String),
    NotImplemented,
}

/// The content of an error.
pub enum ApiErrorView {
    BadRequest(Seq<char>),
    NotFound(Seq<char>),
    MethodNotAllowed(Seq<char>),
    AuthenticationFailed(Seq<char>),
    AuthorizationFailed(Seq<char>),
    NotImplemented,
}

impl View for ApiError {
    type V = ApiErrorView;

    open spec fn view(&self) -> ApiErrorView {
        match self {
            ApiError::BadRequest(m) => ApiErrorView::BadRequest(m@),
            ApiError::NotFound(m) => ApiErrorView::NotFound(m@),
            ApiError::MethodNotAllowed(m) => ApiErrorView::MethodNotAllowed(m@),
            ApiError::AuthenticationFailed(m) => ApiErrorView::AuthenticationFailed(m@),
            ApiError::AuthorizationFailed(m) => ApiErrorView::AuthorizationFailed(m@),
            ApiError::NotImplemented => ApiErrorView::NotImplemented,
        }
    }
}

/// The operations of a resource's API.
#[derive(Debug, Clone, Copy, PartialEq, Eq, Structural)]
pub enum Operation {
    Index,
    Show,
    Create,
    Update,
    Delete,
}

/// Which operations a resource's API allows.
#[derive(Debug, Clone, Copy, PartialEq, Eq, Structural)]
pub struct Operations {
    pub index: bool,
    pub show: bool,
    pub create: bool,
    pub update: bool,
    pub delete: bool,
}

impl Operations {
    /// Whether `op` is allowed.
    pub open spec fn allows_spec(self, op: Operation) -> bool {
        match op {
            Operation::Index => self.index,
            Operation::Show => self.show,
            Operation::Create => self.create,
            Operation::Update => self.update,
            Operation::Delete => self.delete,
        }
    }

    /// Whether `op` is allowed.
    pub fn allows(&self, op: Operation) -> (r: bool)
        ensures
            r == self.allows_spec(op),
    {
        match op {
            Operation::Index => self.index,
            Operation::Show => self.show,
            Operation::Create => self.create,
            Operation::Update => self.update,
            Operation::Delete => self.delete,
        }
    }
}

/// The name of an operation in messages.
pub open spec fn operation_label(op: Operation) -> Seq<char> {
    match op {
        Operation::Index => "Index"@,
        Operation::Show => "Show"@,
        Operation::Create => "Create"@,
        Operation::Update => "Update"@,
        Operation::Delete => "Delete"@,
    }
}

/// The message of a refused operation.
pub open spec fn not_allowed_message(op: Operation, resource_type: Seq<char>) -> Seq<char> {
    operation_label(op) + " operation not allowed for resource '"@ + resource_type + "'"@
}

fn operation_name(op: Operation) -> (r: &'static str)
    ensures
        r@ == operation_label(op),
{
    match op {
        Operation::Index => "Index",
        Operation::Show => "Show",
        Operation::Create => "Create",
        Operation::Update => "Update",
        Operation::Delete => "Delete",
    }
}

/// Refuses `op` on `resource_type` unless `ops` allows it.
pub fn check_operation(ops: &Operations, op: Operation, resource_type: &str) -> (r: Result<(), ApiError>)
    ensures
        ops.allows_spec(op) ==> r is Ok,
        !ops.allows_spec(op) ==> r is Err && r->Err_0@ == ApiErrorView::MethodNotAllowed(
            not_allowed_message(op, resource_type@),
        ),
{
    if ops.allows(op) {
        Ok(())
    } else {
        let mut m = string_of(operation_name(op));
        push_str(&mut m, " operation not allowed for resource '");
        push_str(&mut m, resource_type);
        push_str(&mut m, "'");
        Err(ApiError::MethodNotAllowed(m))
    }
}

/// The message of a missing resource.
pub open spec fn not_found_message(resource_type: Seq<char>, id: i32) -> Seq<char> {
    resource_type + " "@ + dec_int(id as int) + " not found"@
}

/// The error of a resource of type `resource_type` with id `id` that does
/// not exist.
pub fn not_found(resource_type: &str, id: i32) -> (e: ApiError)
    ensures
        e@ == ApiErrorView::NotFound(not_found_message(resource_type@, id)),
{
    let mut m = string_of(resource_type);
    push_str(&mut m, " ");
    push_i64(&mut m, id as i64);
    push_str(&mut m, " not found");
    ApiError::NotFound(m)
}

/// The error of a request to the API when no API is configured.
pub fn api_not_configured() -> (e: ApiError)
    ensures
        e@ == ApiErrorView::NotFound("V1 API not configured"@),
{
    ApiError::NotFound(string_of("V1 API not configured"))
}

/// The error of a request that needs a logged-in user and has none.
pub fn not_authenticated() -> (e: ApiError)
    ensures
        e@ == ApiErrorView::AuthorizationFailed("Not authenticated"@),
{
    ApiError::AuthorizationFailed(string_of("Not authenticated"))
}

/// The link of the collection of a resource type.
pub open spec fn collection_link(resource_type: Seq<char>) -> Seq<char> {
    "/api/v1/"@ + resource_type
}

/// The link of one resource.
pub open spec fn item_link(resource_type: Seq<char>, id: i32) -> Seq<char> {
    "/api/v1/"@ + resource_type + "/"@ + dec_int(id as int)
}

/// The link of the collection of a resource type.
pub fn collection_path(resource_type: &str) -> (r: String)
    ensures
        r@ == collection_link(resource_type@),
{
    let mut r = string_of("/api/v1/");
    push_str(&mut r, resource_type);
    r
}

/// The link of one resource.
pub fn item_path(resource_type: &str, id: i32) -> (r: String)
    ensures
        r@ == item_link(resource_type@, id),
{
    let mut r = collection_path(resource_type);
    push_str(&mut r, "/");
    push_i64(&mut r, id as i64);
    r
}

/// How many resources a relationship leads to.
#[derive(Debug, Clone, Copy, PartialEq, Eq, Structural)]
pub enum Cardinality {
    ToOne,
    ToMany,
}

/// A relationship of a resource type.
#[derive(Debug, Clone)]
pub struct RelationshipMeta {
    pub name: String,
    pub target_type: String,
    pub cardinality: Cardinality,
    /// The attribute holding the related id, when the relationship is read
    /// from an attribute rather than from the relationship's data.
    pub local_field: Option<String>,
}

/// The content of a relationship.
pub struct RelationshipView {
    pub name: Seq<char>,
    pub target_type: Seq<char>,
    pub cardinality: Cardinality,
    pub local_field: Option<Seq<char>>,
}

impl View for RelationshipMeta {
    type V = RelationshipView;

    open spec fn view(&self) -> RelationshipView {
        RelationshipView {
            name: self.name@,
            target_type: self.target_type@,
            cardinality: self.cardinality,
            local_field: opt_view(self.local_field),
        }
    }
}

/// The names of the relationships `rels`.
pub open spec fn relationship_names_of(rels: Seq<RelationshipMeta>) -> Seq<Seq<char>> {
    rels.map_values(|r: RelationshipMeta| r.name@)
}

/// `r` is the position of the first relationship named `name`, or none
/// when none is.
pub open spec fn first_named(rels: Seq<RelationshipMeta>, name: Seq<char>, r: Option<usize>) -> bool {
    match r {
        Some(i) => i < rels.len() && rels[i as int].name@ == name && forall|k: int|
            0 <= k < i ==> rels[k].name@ != name,
        None => forall|k: int| 0 <= k < rels.len() ==> rels[k].name@ != name,
    }
}

/// The position of the first relationship named `name`.
pub fn find_relationship(rels: &[RelationshipMeta], name: &str) -> (r: Option<usize>)
    ensures
        first_named(rels@, name@, r),
{
    let mut i: usize = 0;
    while i < rels.len()
        invariant
            i <= rels@.len(),
            forall|k: int| 0 <= k < i ==> rels@[k].name@ != name@,
        decreases rels@.len() - i,
    {
        if str_eq(rels[i].name.as_str(), name) {
            return Some(i);
        }
        i = i + 1;
    }
    None
}

/// The names of the relationships, in order: the includes a request may ask
/// for.
pub fn relationship_names(rels: &[RelationshipMeta]) -> (r: Vec<String>)
    ensures
        r@.map_values(|s: String| s@) == relationship_names_of(rels@),
{
    let mut r: Vec<String> = Vec::new();
    let mut i: usize = 0;
    while i < rels.len()
        invariant
            i <= rels@.len(),
            r@.map_values(|s: String| s@) == relationship_names_of(rels@).take(i as int),
        decreases rels@.len() - i,
    {
        let ghost prev = r@;
        r.push(rels[i].name.clone());
        assert(r@.map_values(|s: String| s@) =~= prev.map_values(|s: String| s@).push(rels@[i as int].name@));
        assert(relationship_names_of(rels@).take(i + 1) =~= relationship_names_of(rels@).take(i as int).push(
            rels@[i as int].name@,
        ));
        i = i + 1;
    }
    assert(relationship_names_of(rels@).take(rels@.len() as int) =~= relationship_names_of(rels@));
    r
}

/// Whether a request may include the relationship `requested`: some
/// relationship has that name.
pub fn is_include_allowed(rels: &[RelationshipMeta], requested: &str) -> (r: bool)
    ensures
        r == exists|k: int| 0 <= k < rels@.len() && rels@[k].name@ == requested@,
{
    match find_relationship(rels, requested) {
        Some(i) => true,
        None => false,
    }
}

/// The message of a relationship that a resource type does not have.
pub open spec fn missing_relationship_message(relationship: Seq<char>, resource_type: Seq<char>) -> Seq<char> {
    "Relationship '"@ + relationship + "' does not exist on resource '"@ + resource_type + "'"@
}

fn missing_relationship(relationship: &str, resource_type: &str) -> (m: String)
    ensures
        m@ == missing_relationship_message(relationship@, resource_type@),
{
    let mut m = string_of("Relationship '");
    push_str(&mut m, relationship);
    push_str(&mut m, "' does not exist on resource '");
    push_str(&mut m, resource_type);
    push_str(&mut m, "'");
    m
}

/// The relationship that a request for the related resources of
/// `resource_type` names: a bad request when it has none of that name.
pub fn requested_relationship(rels: &[RelationshipMeta], relationship: &str, resource_type: &str) -> (r: Result<
    usize,
    ApiError,
>)
    ensures
        match r {
            Ok(i) => first_named(rels@, relationship@, Some(i)),
            Err(e) => first_named(rels@, relationship@, None) && e@ == ApiErrorView::BadRequest(
                missing_relationship_message(relationship@, resource_type@),
            ),
        },
{
    match find_relationship(rels, relationship) {
        Some(i) => Ok(i),
        None => Err(ApiError::BadRequest(missing_relationship(relationship, resource_type))),
    }
}

/// What is registered for a resource type: the fields a listing may filter
/// and sort by, and its relationships.
#[derive(Debug, Clone)]
pub struct EntityConfig {
    pub filterable_fields: Vec<String>,
    pub sortable_fields: Vec<String>,
    pub relationships: Vec<RelationshipMeta>,
}

/// The message of a resource type that is not registered.
pub open spec fn missing_resource_message(resource: Seq<char>) -> Seq<char> {
    "Resource '"@ + resource + "' not found"@
}

fn missing_resource(resource: &str) -> (e: ApiError)
    ensures
        e@ == ApiErrorView::NotFound(missing_resource_message(resource@)),
{
    let mut m = string_of("Resource '");
    push_str(&mut m, resource);
    push_str(&mut m, "' not found");
    ApiError::NotFound(m)
}

/// The resource types of the API: a handler for each, and the configuration
/// of each configured one.
pub struct Registry<H> {
    handlers: TextMap<H>,
    entities: TextMap<EntityConfig>,
}

impl<H> Registry<H> {
    /// The handlers, by resource type.
    pub closed spec fn handlers_view(&self) -> Map<Seq<char>, H> {
        self.handlers.view()
    }

    /// The configurations, by resource type.
    pub closed spec fn entities_view(&self) -> Map<Seq<char>, EntityConfig> {
        self.entities.view()
    }

    /// A registry of the given handlers and configurations.
    pub fn from_config(handlers: TextMap<H>, entities: TextMap<EntityConfig>) -> (r: Self)
        ensures
            r.handlers_view() == handlers.view(),
            r.entities_view() == entities.view(),
    {
        Registry { handlers, entities }
    }

    /// The handler of `resource`; not found when none is registered.
    pub fn get(&self, resource: &str) -> (r: Result<&H, ApiError>)
        ensures
            match r {
                Ok(h) => self.handlers_view().dom().contains(resource@) && *h == self.handlers_view()[resource@],
                Err(e) => !self.handlers_view().dom().contains(resource@) && e@ == ApiErrorView::NotFound(
                    missing_resource_message(resource@),
                ),
            },
    {
        match self.handlers.get(resource) {
            Some(h) => Ok(h),
            None => Err(missing_resource(resource)),
        }
    }

    /// Whether a handler is registered for `resource`.
    pub fn has(&self, resource: &str) -> (r: bool)
        ensures
            r == self.handlers_view().dom().contains(resource@),
    {
        match self.handlers.get(resource) {
            Some(h) => true,
            None => false,
        }
    }

    /// The resource types with a handler, each once.
    pub fn resources(&self) -> (r: Vec<String>)
        ensures
            forall|i: int, j: int| 0 <= i < j < r@.len() ==> r@[i]@ != r@[j]@,
            forall|k: Seq<char>|
                self.handlers_view().dom().contains(k) <==> exists|i: int| 0 <= i < r@.len() && r@[i]@ == k,
    {
        self.handlers.keys()
    }

    /// The configuration of `resource`, if it is configured.
    pub fn entity_config(&self, resource: &str) -> (r: Option<&EntityConfig>)
        ensures
            match r {
                Some(c) => self.entities_view().dom().contains(resource@) && *c == self.entities_view()[resource@],
                None => !self.entities_view().dom().contains(resource@),
            },
    {
        self.entities.get(resource)
    }

    /// The relationship `relationship_name` of the configured `resource`:
    /// not found when the resource is not configured or has no relationship
    /// of that name.
    pub fn get_relationship(&self, resource: &str, relationship_name: &str) -> (r: Result<
        &RelationshipMeta,
        ApiError,
    >)
        ensures
            match r {
                Ok(m) => self.entities_view().dom().contains(resource@) && exists|i: usize|
                    first_named(self.entities_view()[resource@].relationships@, relationship_name@, Some(i))
                        && *m == self.entities_view()[resource@].relationships@[i as int],
                Err(e) => if self.entities_view().dom().contains(resource@) {
                    first_named(self.entities_view()[resource@].relationships@, relationship_name@, None)
                        && e@ == ApiErrorView::NotFound(
                        missing_relationship_message(relationship_name@, resource@),
                    )
                } else {
                    e@ == ApiErrorView::NotFound(missing_resource_message(resource@))
                },
            },
    {
        let config = match self.entities.get(resource) {
            Some(c) => c,
            None => return Err(missing_resource(resource)),
        };
        match find_relationship(config.relationships.as_slice(), relationship_name) {
            Some(i) => Ok(&config.relationships[i]),
            None => Err(ApiError::NotFound(missing_relationship(relationship_name, resource))),
        }
    }
}

/// The key by which included resources are told apart: type and id, the id
/// empty when missing.
pub open spec fn resource_key(resource_type: Seq<char>, id: Option<Seq<char>>) -> Seq<char> {
    resource_type + ":"@ + match id {
        Some(i) => i,
        None => Seq::empty(),
    }
}

/// The key of a resource.
pub fn resource_key_of(resource_type: &str, id: Option<&str>) -> (k: String)
    ensures
        k@ == resource_key(
            resource_type@,
            match id {
                Some(i) => Some(i@),
                None => None,
            },
        ),
{
    let mut k = string_of(resource_type);
    push_str(&mut k, ":");
    match id {
        Some(i) => push_str(&mut k, i),
        None => {},
    }
    k
}

/// The resources included in a response, each key once, in the order they
/// were first met.
pub struct IncludedResources<T> {
    keys: Vec<String>,
    items: Vec<T>,
}

impl<T> IncludedResources<T> {
    /// The included resources with their keys, in order.
    pub closed spec fn view(&self) -> Seq<(Seq<char>, T)> {
        Seq::new(self.items@.len(), |i: int| (self.keys@[i]@, self.items@[i]))
    }

    /// The keys of the included resources.
    pub open spec fn key_seq(&self) -> Seq<Seq<char>> {
        self.view().map_values(|e: (Seq<char>, T)| e.0)
    }

    pub closed spec fn wf(&self) -> bool {
        &&& self.keys@.len() == self.items@.len()
        &&& forall|i: int, j: int| 0 <= i < j < self.keys@.len() ==> self.keys@[i]@ != self.keys@[j]@
    }

    /// Nothing included yet.
    pub fn new() -> (r: Self)
        ensures
            r.wf(),
            r.view() == Seq::<(Seq<char>, T)>::empty(),
    {
        let r = IncludedResources { keys: Vec::new(), items: Vec::new() };
        assert(r.view() =~= Seq::<(Seq<char>, T)>::empty());
        r
    }

    /// Whether a resource of the key `key` is included.
    pub fn contains(&self, key: &str) -> (r: bool)
        requires
            self.wf(),
        ensures
            r == self.key_seq().contains(key@),
    {
        let mut i: usize = 0;
        while i < self.keys.len()
            invariant
                self.wf(),
                i <= self.keys@.len(),
                forall|k: int| 0 <= k < i ==> self.keys@[k]@ != key@,
            decreases self.keys@.len() - i,
        {
            if str_eq(self.keys[i].as_str(), key) {
                assert(self.key_seq()[i as int] == key@);
                return true;
            }
            i = i + 1;
        }
        proof {
            if self.key_seq().contains(key@) {
                let k = choose|k: int| 0 <= k < self.key_seq().len() && self.key_seq()[k] == key@;
                assert(self.keys@[k]@ == key@);
            }
        }
        false
    }

    /// Includes `item`, of type `resource_type` and id `id`, unless a
    /// resource of the same key is included already; says whether it was.
    pub fn add(&mut self, resource_type: &str, id: Option<&str>, item: T) -> (added: bool)
        requires
            old(self).wf(),
        ensures
            final(self).wf(),
            ({
                let k = resource_key(
                    resource_type@,
                    match id {
                        Some(i) => Some(i@),
                        None => None,
                    },
                );
                &&& added == !old(self).key_seq().contains(k)
                &&& added ==> final(self).view() == old(self).view().push((k, item))
                &&& !added ==> final(self).view() == old(self).view()
            }),
    {
        let k = resource_key_of(resource_type, id);
        if self.contains(k.as_str()) {
            false
        } else {
            let ghost before = self.view();
            proof {
                assert forall|i: int| 0 <= i < self.keys@.len() implies self.keys@[i]@ != k@ by {
                    assert(self.key_seq()[i] == self.keys@[i]@);
                }
            }
            self.keys.push(k);
            self.items.push(item);
            assert(self.view() =~= before.push((k@, item)));
            true
        }
    }

    /// The number of included resources.
    pub fn len(&self) -> (n: usize)
        requires
            self.wf(),
        ensures
            n == self.view().len(),
    {
        self.items.len()
    }

    /// The included resources, in order.
    pub fn into_items(self) -> (v: Vec<T>)
        requires
            self.wf(),
        ensures
            v@ == self.view().map_values(|e: (Seq<char>, T)| e.1),
    {
        let ghost w = self.view();
        let v = self.items;
        assert(v@ =~= w.map_values(|e: (Seq<char>, T)| e.1));
        v
    }
}

/// No key occurs twice among the included resources, whatever was added.
pub proof fn law_included_keys_distinct<T>(inc: IncludedResources<T>)
    requires
        inc.wf(),
    ensures
        forall|i: int, j: int|
            0 <= i < j < inc.view().len() ==> inc.view()[i].0 != inc.view()[j].0,
{
}

/// The resources `objs` (each with its key) included after `v`, in turn:
/// each one whose key is not included yet is appended.
pub open spec fn with_added<T>(v: Seq<(Seq<char>, T)>, objs: Seq<(Seq<char>, T)>) -> Seq<(Seq<char>, T)>
    decreases objs.len(),
{
    if objs.len() == 0 {
        v
    } else {
        let w = with_added(v, objs.drop_last());
        let o = objs.last();
        if w.map_values(|e: (Seq<char>, T)| e.0).contains(o.0) {
            w
        } else {
            w.push(o)
        }
    }
}

/// A loaded resource: its type, its id if any, and the resource.
pub type Loaded<T> = (String, Option<String>, T);

/// The keyed views of loaded resources.
pub open spec fn keyed<T>(objs: Seq<Loaded<T>>) -> Seq<(Seq<char>, T)> {
    objs.map_values(
        |o: Loaded<T>|
            (
                resource_key(
                    o.0@,
                    match o.1 {
                        Some(i) => Some(i@),
                        None => None,
                    },
                ),
                o.2,
            ),
    )
}

impl<T> IncludedResources<T> {
    /// Includes each of `objs` in turn, as `add` does.
    pub fn add_all(&mut self, objs: Vec<Loaded<T>>)
        requires
            old(self).wf(),
        ensures
            final(self).wf(),
            final(self).view() == with_added(old(self).view(), keyed(objs@)),
    {
        let ghost all = keyed(objs@);
        let mut objs = objs;
        let mut rest: Vec<Loaded<T>> = Vec::new();
        while objs.len() > 0
            invariant
                all == keyed(objs@) + keyed(rest@.reverse()),
            decreases objs@.len(),
        {
            let o = objs.pop().unwrap();
            rest.push(o);
            assert(keyed(objs@) + keyed(rest@.reverse()) =~= all);
        }
        assert(keyed(rest@.reverse()) =~= all);
        let ghost start = self.view();
        let mut done: Ghost<nat> = Ghost(0);
        while rest.len() > 0
            invariant
                self.wf(),
                done@ + rest@.len() == all.len(),
                keyed(rest@.reverse()) == all.skip(done@ as int),
                self.view() == with_added(start, all.take(done@ as int)),
            decreases rest@.len(),
        {
            let ghost before = rest@;
            let o = rest.pop().unwrap();
            assert(before.reverse() =~= seq![o] + rest@.reverse());
            assert(keyed(before.reverse()) =~= seq![keyed(before.reverse())[0]] + keyed(rest@.reverse()));
            let ghost k = all[done@ as int];
            assert(all.take(done@ + 1 as int).drop_last() =~= all.take(done@ as int));
            let (t, id, item) = o;
            let id_ref: Option<&str> = match &id {
                Some(i) => Some(i.as_str()),
                None => None,
            };
            self.add(t.as_str(), id_ref, item);
            proof {
                done@ = done@ + 1;
                assert(all.skip(done@ as int) =~= all.skip(done@ - 1).drop_first());
                assert(self.key_seq() == self.view().map_values(|e: (Seq<char>, T)| e.0));
            }
        }
        assert(all.take(all.len() as int) =~= all);
    }
}

/// The position of the relationship named `name`, the first of that name.
pub open spec fn rel_for(rels: Seq<RelationshipMeta>, name: Seq<char>) -> Option<usize> {
    if exists|i: usize| first_named(rels, name, Some(i)) {
        Some(choose|i: usize| first_named(rels, name, Some(i)))
    } else {
        None
    }
}

proof fn lemma_rel_for(rels: Seq<RelationshipMeta>, name: Seq<char>, r: Option<usize>)
    requires
        first_named(rels, name, r),
    ensures
        rel_for(rels, name) == r,
{
    match r {
        Some(i) => {
            let j = choose|j: usize| first_named(rels, name, Some(j));
            assert(j == i) by {
                if j < i {
                    assert(rels[j as int].name@ != name);
                } else if i < j {
                    assert(rels[i as int].name@ != name);
                }
            }
        },
        None => {
            if exists|i: usize| first_named(rels, name, Some(i)) {
                let j = choose|j: usize| first_named(rels, name, Some(j));
                assert(rels[j as int].name@ == name);
            }
        },
    }
}

/// The first requested include at or after `p` that names a relationship
/// of the resource (the others are skipped), or the end.
pub open spec fn next_include(includes: Seq<Seq<char>>, rels: Seq<RelationshipMeta>, p: int) -> int
    decreases includes.len() - p,
{
    if p >= includes.len() {
        includes.len() as int
    } else if rel_for(rels, includes[p]) is Some {
        p
    } else {
        next_include(includes, rels, p + 1)
    }
}

proof fn lemma_next_include_ge(includes: Seq<Seq<char>>, rels: Seq<RelationshipMeta>, p: int)
    requires
        0 <= p <= includes.len(),
    ensures
        p <= next_include(includes, rels, p) <= includes.len(),
    decreases includes.len() - p,
{
    if p < includes.len() && rel_for(rels, includes[p]) is None {
        lemma_next_include_ge(includes, rels, p + 1);
    }
}

/// What a listing loads next for its includes.
#[derive(Debug, Clone, Copy, PartialEq, Eq, Structural)]
pub enum IncludeRequest {
    /// Load the relationship at `rel` of all listed resources at once.
    LoadBatch { rel: usize },
    /// Load the relationship at `rel` of the listed resource at `item`.
    LoadItem { rel: usize, item: usize },
    /// Every include is handled.
    Finish,
}

/// How a load asked for by an `IncludeRequest` ended.
pub enum IncludeEvent<T> {
    /// It gave these resources (none, for an empty relationship).
    Loaded(Vec<Loaded<T>>),
    /// Loading this way is not implemented for the relationship.
    NotImplemented,
    /// It failed.
    Failed,
}

/// The state of the includes of a listing: which include is being loaded,
/// and item by item up to which resource, with what has been included.
pub struct IncludeWalk<T> {
    includes: Vec<String>,
    rels: Vec<RelationshipMeta>,
    item_count: usize,
    pos: usize,
    item: Option<usize>,
    included: IncludedResources<T>,
}

/// The request for the state: the next item of the include being loaded item
/// by item, else the include at `pos`, else the end.
pub open spec fn request_at(
    includes: Seq<Seq<char>>,
    rels: Seq<RelationshipMeta>,
    pos: int,
    item: Option<usize>,
) -> IncludeRequest {
    match item {
        Some(k) => IncludeRequest::LoadItem { rel: rel_for(rels, includes[pos])->0, item: k },
        None => if pos >= includes.len() {
            IncludeRequest::Finish
        } else {
            IncludeRequest::LoadBatch { rel: rel_for(rels, includes[pos])->0 }
        },
    }
}

impl<T> IncludeWalk<T> {
    /// The requested includes.
    pub closed spec fn includes_view(&self) -> Seq<Seq<char>> {
        self.includes@.map_values(|s: String| s@)
    }

    /// The relationships of the resource.
    pub closed spec fn rels_view(&self) -> Seq<RelationshipMeta> {
        self.rels@
    }

    /// The number of listed resources.
    pub closed spec fn item_count_view(&self) -> nat {
        self.item_count as nat
    }

    /// The include being handled.
    pub closed spec fn pos_view(&self) -> int {
        self.pos as int
    }

    /// The resource whose relationship is loaded next, when loading item by
    /// item.
    pub closed spec fn item_view(&self) -> Option<usize> {
        self.item
    }

    /// What has been included so far.
    pub closed spec fn included_view(&self) -> Seq<(Seq<char>, T)> {
        self.included.view()
    }

    pub closed spec fn wf(&self) -> bool {
        &&& self.included.wf()
        &&& self.pos <= self.includes@.len()
        &&& next_include(self.includes_view(), self.rels@, self.pos as int) == self.pos
        &&& match self.item {
            Some(k) => k < self.item_count && self.pos < self.includes@.len(),
            None => true,
        }
    }

    /// The request the walk waits on.
    pub open spec fn request(&self) -> IncludeRequest {
        request_at(self.includes_view(), self.rels_view(), self.pos_view(), self.item_view())
    }

    fn settle(&mut self)
        requires
            old(self).included.wf(),
            old(self).pos <= old(self).includes@.len(),
            old(self).item is None,
        ensures
            final(self).wf(),
            final(self).includes == old(self).includes,
            final(self).rels == old(self).rels,
            final(self).item_count == old(self).item_count,
            final(self).included == old(self).included,
            final(self).item is None,
            final(self).pos == next_include(old(self).includes_view(), old(self).rels@, old(self).pos as int),
    {
        while self.pos < self.includes.len()
            invariant
                self.included.wf(),
                self.pos <= self.includes@.len(),
                self.item is None,
                self.includes == old(self).includes,
                self.rels == old(self).rels,
                self.item_count == old(self).item_count,
                self.included == old(self).included,
                next_include(self.includes_view(), self.rels@, self.pos as int) == next_include(
                    old(self).includes_view(),
                    old(self).rels@,
                    old(self).pos as int,
                ),
            decreases self.includes@.len() - self.pos,
        {
            let r = find_relationship(self.rels.as_slice(), self.includes[self.pos].as_str());
            proof {
                lemma_rel_for(self.rels@, self.includes_view()[self.pos as int], r);
            }
            if r.is_some() {
                return;
            }
            self.pos = self.pos + 1;
        }
    }

    /// Starts the includes `includes` of a listing of `item_count` resources
    /// of a type with the relationships `rels`; says what to load first.
    pub fn start(includes: Vec<String>, rels: Vec<RelationshipMeta>, item_count: usize) -> (r: (Self, IncludeRequest))
        ensures
            r.0.wf(),
            r.0.includes_view() == includes@.map_values(|s: String| s@),
            r.0.rels_view() == rels@,
            r.0.item_count_view() == item_count,
            r.0.pos_view() == next_include(includes@.map_values(|s: String| s@), rels@, 0),
            r.0.item_view() is None,
            r.0.included_view() == Seq::<(Seq<char>, T)>::empty(),
            r.1 == r.0.request(),
    {
        let mut w = IncludeWalk { includes, rels, item_count, pos: 0, item: None, included: IncludedResources::new() };
        w.settle();
        let a = w.current();
        (w, a)
    }

    fn current(&self) -> (r: IncludeRequest)
        requires
            self.wf(),
        ensures
            r == self.request(),
    {
        match self.item {
            Some(k) => {
                let rel = find_relationship(self.rels.as_slice(), self.includes[self.pos].as_str());
                proof {
                    lemma_rel_for(self.rels@, self.includes_view()[self.pos as int], rel);
                    if rel_for(self.rels@, self.includes_view()[self.pos as int]) is None {
                        lemma_next_include_ge(self.includes_view(), self.rels@, self.pos + 1);
                    }
                }
                IncludeRequest::LoadItem { rel: rel.unwrap(), item: k }
            },
            None => if self.pos >= self.includes.len() {
                IncludeRequest::Finish
            } else {
                let rel = find_relationship(self.rels.as_slice(), self.includes[self.pos].as_str());
                proof {
                    lemma_rel_for(self.rels@, self.includes_view()[self.pos as int], rel);
                    if rel_for(self.rels@, self.includes_view()[self.pos as int]) is None {
                        lemma_next_include_ge(self.includes_view(), self.rels@, self.pos + 1);
                    }
                }
                IncludeRequest::LoadBatch { rel: rel.unwrap() }
            },
        }
    }

    /// Whether every include is handled.
    pub fn finished(&self) -> (r: bool)
        requires
            self.wf(),
        ensures
            r == (self.request() == IncludeRequest::Finish),
    {
        self.item.is_none() && self.pos >= self.includes.len()
    }

    /// Takes in how the requested load ended and says what to load next. A
    /// batch that loaded, or failed, ends the include; a batch that is not
    /// implemented is replaced by loading each listed resource's
    /// relationship in turn, where every failure is passed over. Whatever was
    /// loaded is included once per key.
    pub fn step(&mut self, event: IncludeEvent<T>) -> (r: IncludeRequest)
        requires
            old(self).wf(),
            old(self).request() != IncludeRequest::Finish,
        ensures
            final(self).wf(),
            final(self).includes_view() == old(self).includes_view(),
            final(self).rels_view() == old(self).rels_view(),
            final(self).item_count_view() == old(self).item_count_view(),
            ({
                let added = match event {
                    IncludeEvent::Loaded(objs) => with_added(old(self).included_view(), keyed(objs@)),
                    _ => old(self).included_view(),
                };
                let next = next_include(old(self).includes_view(), old(self).rels_view(), old(self).pos_view() + 1);
                match old(self).item_view() {
                    None => match event {
                        IncludeEvent::NotImplemented => if old(self).item_count_view() > 0 {
                            final(self).pos_view() == old(self).pos_view() && final(self).item_view() == Some(0usize)
                                && final(self).included_view() == old(self).included_view()
                        } else {
                            final(self).pos_view() == next && final(self).item_view() is None
                                && final(self).included_view() == old(self).included_view()
                        },
                        _ => final(self).pos_view() == next && final(self).item_view() is None
                            && final(self).included_view() == added,
                    },
                    Some(k) => if k + 1 < old(self).item_count_view() {
                        final(self).pos_view() == old(self).pos_view() && final(self).item_view() == Some(
                            (k + 1) as usize,
                        ) && final(self).included_view() == added
                    } else {
                        final(self).pos_view() == next && final(self).item_view() is None
                            && final(self).included_view() == added
                    },
                }
            }),
            r == final(self).request(),
    {
        let batch = self.item.is_none();
        assert(self.pos < self.includes@.len());
        let not_implemented = match &event {
            IncludeEvent::NotImplemented => true,
            _ => false,
        };
        let pos = self.pos;
        let n = self.includes.len();
        match event {
            IncludeEvent::Loaded(objs) => self.included.add_all(objs),
            _ => {},
        }
        assert(pos == self.pos && pos < n);
        if batch {
            if not_implemented && self.item_count > 0 {
                self.item = Some(0);
            } else {
                self.pos = self.pos + 1;
                self.settle();
            }
        } else {
            let k = self.item.unwrap();
            if k + 1 < self.item_count {
                self.item = Some(k + 1);
            } else {
                self.item = None;
                self.pos = self.pos + 1;
                self.settle();
            }
        }
        self.current()
    }

    /// The included resources, once every include is handled.
    pub fn into_included(self) -> (v: Vec<T>)
        requires
            self.wf(),
        ensures
            v@ == self.included_view().map_values(|e: (Seq<char>, T)| e.1),
    {
        self.included.into_items()
    }
}

/// Whatever the loads gave, a listing never includes two resources of the
/// same key.
pub proof fn law_listing_includes_each_key_once<T>(w: IncludeWalk<T>)
    requires
        w.wf(),
    ensures
        forall|i: int, j: int|
            0 <= i < j < w.included_view().len() ==> w.included_view()[i].0 != w.included_view()[j].0,
{
}

/// A JSON value as the lookups of related ids read it.
#[derive(Debug, Clone)]
pub enum JsonScalar {
    Text(String),
    Int(i64),
    Other,
}

/// The content of a JSON scalar.
pub enum JsonScalarView {
    Text(Seq<char>),
    Int(i64),
    Other,
}

impl View for JsonScalar {
    type V = JsonScalarView;

    open spec fn view(&self) -> JsonScalarView {
        match self {
            JsonScalar::Text(s) => JsonScalarView::Text(s@),
            JsonScalar::Int(i) => JsonScalarView::Int(*i),
            JsonScalar::Other => JsonScalarView::Other,
        }
    }
}

pub open spec fn opt_scalar(v: Option<JsonScalar>) -> Option<JsonScalarView> {
    match v {
        Some(s) => Some(s@),
        None => None,
    }
}

/// The related id held in an attribute: an integer, cut to 32 bits.
pub open spec fn id_from_attribute(v: Option<JsonScalarView>) -> Option<i32> {
    match v {
        Some(JsonScalarView::Int(i)) => Some(i as i32),
        _ => None,
    }
}

/// The related id held in a relationship's data: a string that reads as an
/// `i32`, or an integer cut to 32 bits.
pub open spec fn id_from_identifier(v: Option<JsonScalarView>) -> Option<i32> {
    match v {
        Some(JsonScalarView::Text(s)) => parsed_i32(s),
        Some(JsonScalarView::Int(i)) => Some(i as i32),
        _ => None,
    }
}

/// The id of the resource related through `rel`, read from the attribute
/// `rel.local_field` when it names one (`attribute` is that attribute's
/// value), else from the id in the relationship's data (`identifier`).
pub open spec fn related_id(rel: RelationshipView, attribute: Option<JsonScalarView>, identifier: Option<JsonScalarView>) -> Option<i32> {
    match rel.local_field {
        Some(_) => id_from_attribute(attribute),
        None => id_from_identifier(identifier),
    }
}

fn truncate_i32(i: i64) -> (r: i32)
    ensures
        r == i as i32,
{
    #[verifier::truncate]
    (i as i32)
}

/// The id of the resource related through `rel`.
pub fn related_target_id(rel: &RelationshipMeta, attribute: Option<JsonScalar>, identifier: Option<JsonScalar>) -> (r:
    Option<i32>)
    ensures
        r == related_id(rel@, opt_scalar(attribute), opt_scalar(identifier)),
{
    match &rel.local_field {
        Some(_) => match attribute {
            Some(JsonScalar::Int(i)) => Some(truncate_i32(i)),
            _ => None,
        },
        None => match identifier {
            Some(JsonScalar::Text(s)) => parse_i32(s.as_str()),
            Some(JsonScalar::Int(i)) => Some(truncate_i32(i)),
            _ => None,
        },
    }
}

/// The id a listing uses to load a relationship item by item: the
/// resource's id read as an `i32`, 0 when it does not read.
pub fn item_id_or_zero(id: &str) -> (r: i32)
    ensures
        r == match parsed_i32(id@) {
            Some(i) => i,
            None => 0,
        },
{
    match parse_i32(id) {
        Some(i) => i,
        None => 0,
    }
}

/// How a batch load of an included relationship ended.
#[derive(Debug, Clone, Copy, PartialEq, Eq, Structural)]
pub enum BatchOutcome {
    Loaded,
    NotImplemented,
    Failed,
}

/// What a listing does next about an included relationship.
#[derive(Debug, Clone, Copy, PartialEq, Eq, Structural)]
pub enum IncludeStep {
    /// Include what the batch loaded.
    UseBatch,
    /// Load the relationship of each listed resource on its own.
    LoadEachItem,
    /// Include nothing for it.
    Skip,
}

/// A listing includes what a batch load gave, loads item by item where the
/// batch load is not implemented, and includes nothing when it failed.
pub fn index_include_step(outcome: BatchOutcome) -> (r: IncludeStep)
    ensures
        r == match outcome {
            BatchOutcome::Loaded => IncludeStep::UseBatch,
            BatchOutcome::NotImplemented => IncludeStep::LoadEachItem,
            BatchOutcome::Failed => IncludeStep::Skip,
        },
{
    match outcome {
        BatchOutcome::Loaded => IncludeStep::UseBatch,
        BatchOutcome::NotImplemented => IncludeStep::LoadEachItem,
        BatchOutcome::Failed => IncludeStep::Skip,
    }
}

/// What showing one resource does with an error in loading an included
/// relationship: a relationship whose loading is not implemented is left
/// out; any other error ends the request.
pub fn show_include_error(e: ApiError) -> (r: Option<ApiError>)
    ensures
        r == match e {
            ApiError::NotImplemented => None,
            _ => Some(e),
        },
{
    match e {
        ApiError::NotImplemented => None,
        _ => Some(e),
    }
}

} // verus!
