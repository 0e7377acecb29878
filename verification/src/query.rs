//! How a JSON:API listing request becomes a database query: which filter
//! conditions turn into which column predicates, which sort fields into which
//! orderings, and which rows a page covers. The database layer executes the
//! plan; every decision about it is taken here.
use vstd::prelude::*;
use crate::parse::{parse_bool, parse_i32, parsed_bool, parsed_i32};
use crate::search_filter::opt_view;
use crate::text::{push_str, str_eq, string_of};

verus! {

/// The resources stored in the database.
#[derive(Debug, Clone, Copy, PartialEq, Eq, Structural)]
pub enum Resource {
    Account,
    Address,
    AuditLog,
    Brand,
    Customer,
    Media,
    Order,
    OrderItem,
    Organization,
    Product,
    User,
}

/// A filter operator of a `filter[field][op]=value` parameter.
#[derive(Debug, Clone, Copy, PartialEq, Eq, Structural)]
pub enum FilterOperator {
    Eq,
    Neq,
    Like,
    Gt,
    Gte,
    Lt,
    Lte,
    Null,
    NotNull,
}

/// One filter of a listing request.
#[derive(Debug, Clone)]
pub struct FilterCondition {
    pub field: String,
    pub operator: FilterOperator,
    pub value: Option<String>,
}

/// The content of a filter condition.
pub struct FilterView {
    pub field: Seq<char>,
    pub operator: FilterOperator,
    pub value: Option<Seq<char>>,
}

impl View for FilterCondition {
    type V = FilterView;

    open spec fn view(&self) -> FilterView {
        FilterView { field: self.field@, operator: self.operator, value: opt_view(self.value) }
    }
}

/// The direction of a sort field.
#[derive(Debug, Clone, Copy, PartialEq, Eq, Structural)]
pub enum SortDirection {
    Ascending,
    Descending,
}

/// The page of a listing request: its number, from 1, and its size.
#[derive(Debug, Clone, Copy, PartialEq, Eq, Structural)]
pub struct PageParams {
    pub number: i64,
    pub size: i64,
}

/// How the value of a filterable field is read.
#[derive(Debug, Clone, Copy, PartialEq, Eq, Structural)]
pub enum ValueKind {
    Text,
    Bool,
    Int,
}

/// Whether, and how, a text field can be matched with `like`.
#[derive(Debug, Clone, Copy, PartialEq, Eq, Structural)]
pub enum LikeRule {
    NotAllowed,
    /// The value is the pattern.
    AsGiven,
    /// The pattern is the value with `%` on both sides.
    Contains,
}

/// How a filterable field is turned into a predicate.
#[derive(Debug, Clone, Copy)]
pub struct FieldRule {
    pub column: &'static str,
    pub kind: ValueKind,
    pub like: LikeRule,
    /// `gt`, `gte`, `lt` and `lte` are allowed.
    pub ordered: bool,
    /// `null` and `not_null` without a value are allowed.
    pub null_checks: bool,
}

/// The content of a field rule.
pub struct RuleView {
    pub column: Seq<char>,
    pub kind: ValueKind,
    pub like: LikeRule,
    pub ordered: bool,
    pub null_checks: bool,
}

impl View for FieldRule {
    type V = RuleView;

    open spec fn view(&self) -> RuleView {
        RuleView {
            column: self.column@,
            kind: self.kind,
            like: self.like,
            ordered: self.ordered,
            null_checks: self.null_checks,
        }
    }
}

pub open spec fn rule(column: Seq<char>, kind: ValueKind, like: LikeRule, ordered: bool, null_checks: bool) -> RuleView {
    RuleView { column, kind, like, ordered, null_checks }
}

/// A text field compared for (in)equality, and by `like` as `like` says.
pub open spec fn text_rule(column: Seq<char>, like: LikeRule) -> RuleView {
    rule(column, ValueKind::Text, like, false, false)
}

/// The rule for `field` when filtering `resource`, if it can be filtered on.
pub open spec fn field_rule(resource: Resource, field: Seq<char>) -> Option<RuleView> {
    match resource {
        Resource::Product => if field == "name"@ || field == "slug"@ {
            Some(text_rule(field, LikeRule::Contains))
        } else if field == "stock_status"@ || field == "status"@ {
            Some(text_rule("stock_status"@, LikeRule::NotAllowed))
        } else if field == "is_visible"@ || field == "is_featured"@ {
            Some(rule(field, ValueKind::Bool, LikeRule::NotAllowed, false, false))
        } else if field == "brand_id"@ || field == "account_id"@ {
            Some(rule(field, ValueKind::Int, LikeRule::NotAllowed, false, false))
        } else {
            None
        },
        Resource::User => if field == "email"@ || field == "first_name"@ || field == "last_name"@ {
            Some(text_rule(field, LikeRule::AsGiven))
        } else if field == "account_status"@ {
            Some(text_rule(field, LikeRule::NotAllowed))
        } else if field == "enabled"@ || field == "locked"@ {
            Some(rule(field, ValueKind::Bool, LikeRule::NotAllowed, false, false))
        } else {
            None
        },
        Resource::Media => if field == "filename"@ || field == "mime_type"@ {
            Some(text_rule(field, LikeRule::AsGiven))
        } else if field == "is_public"@ {
            Some(rule(field, ValueKind::Bool, LikeRule::NotAllowed, false, false))
        } else if field == "uploaded_by"@ {
            Some(rule(field, ValueKind::Int, LikeRule::NotAllowed, false, true))
        } else {
            None
        },
        Resource::AuditLog => if field == "entity"@ {
            Some(text_rule(field, LikeRule::AsGiven))
        } else if field == "action"@ || field == "entity_id"@ {
            Some(text_rule(field, LikeRule::NotAllowed))
        } else if field == "user_id"@ {
            Some(rule(field, ValueKind::Int, LikeRule::NotAllowed, false, true))
        } else {
            None
        },
        Resource::Organization => if field == "name"@ || field == "email"@ || field == "city"@ {
            Some(text_rule(field, LikeRule::AsGiven))
        } else if field == "country"@ {
            Some(text_rule(field, LikeRule::NotAllowed))
        } else if field == "account_id"@ {
            Some(rule(field, ValueKind::Int, LikeRule::NotAllowed, false, false))
        } else if field == "id"@ {
            Some(rule(field, ValueKind::Int, LikeRule::NotAllowed, true, false))
        } else {
            None
        },
        _ => None,
    }
}

/// How a predicate compares its column.
#[derive(Debug, Clone, Copy, PartialEq, Eq, Structural)]
pub enum Comparison {
    Eq,
    Ne,
    Like,
    Gt,
    Ge,
    Lt,
    Le,
    IsNull,
    IsNotNull,
}

/// What a column is compared with.
#[derive(Debug, Clone)]
pub enum Operand {
    Text(String),
    Flag(bool),
    Id(i32),
    Absent,
}

/// The content of an operand.
pub enum OperandView {
    Text(Seq<char>),
    Flag(bool),
    Id(i32),
    Absent,
}

impl View for Operand {
    type V = OperandView;

    open spec fn view(&self) -> OperandView {
        match self {
            Operand::Text(s) => OperandView::Text(s@),
            Operand::Flag(b) => OperandView::Flag(*b),
            Operand::Id(i) => OperandView::Id(*i),
            Operand::Absent => OperandView::Absent,
        }
    }
}

/// A condition on one column.
#[derive(Debug, Clone)]
pub struct Predicate {
    pub column: String,
    pub comparison: Comparison,
    pub operand: Operand,
}

/// The content of a predicate.
pub struct PredicateView {
    pub column: Seq<char>,
    pub comparison: Comparison,
    pub operand: OperandView,
}

impl View for Predicate {
    type V = PredicateView;

    open spec fn view(&self) -> PredicateView {
        PredicateView { column: self.column@, comparison: self.comparison, operand: self.operand@ }
    }
}

/// The value `v` read as a field of kind `kind`, if it reads.
pub open spec fn operand_for(kind: ValueKind, v: Seq<char>) -> Option<OperandView> {
    match kind {
        ValueKind::Text => Some(OperandView::Text(v)),
        ValueKind::Bool => match parsed_bool(v) {
            Some(b) => Some(OperandView::Flag(b)),
            None => None,
        },
        ValueKind::Int => match parsed_i32(v) {
            Some(i) => Some(OperandView::Id(i)),
            None => None,
        },
    }
}

pub open spec fn pred(column: Seq<char>, comparison: Comparison, operand: OperandView) -> PredicateView {
    PredicateView { column, comparison, operand }
}

/// The predicate that a filter condition on `resource` adds to the query,
/// if any. A condition on an unknown field, with a value that does not read
/// as the field's kind, or with an operator the field does not take, adds
/// nothing.
pub open spec fn filter_predicate(resource: Resource, cond: FilterView) -> Option<PredicateView> {
    match field_rule(resource, cond.field) {
        None => None,
        Some(r) => match cond.value {
            None => if r.null_checks {
                match cond.operator {
                    FilterOperator::Null => Some(pred(r.column, Comparison::IsNull, OperandView::Absent)),
                    FilterOperator::NotNull => Some(pred(r.column, Comparison::IsNotNull, OperandView::Absent)),
                    _ => None,
                }
            } else {
                None
            },
            Some(v) => match operand_for(r.kind, v) {
                None => None,
                Some(o) => match cond.operator {
                    FilterOperator::Eq => Some(pred(r.column, Comparison::Eq, o)),
                    FilterOperator::Neq => Some(pred(r.column, Comparison::Ne, o)),
                    FilterOperator::Like => match r.like {
                        LikeRule::NotAllowed => None,
                        LikeRule::AsGiven => Some(pred(r.column, Comparison::Like, o)),
                        LikeRule::Contains => Some(
                            pred(r.column, Comparison::Like, OperandView::Text("%"@ + v + "%"@)),
                        ),
                    },
                    FilterOperator::Gt => if r.ordered {
                        Some(pred(r.column, Comparison::Gt, o))
                    } else {
                        None
                    },
                    FilterOperator::Gte => if r.ordered {
                        Some(pred(r.column, Comparison::Ge, o))
                    } else {
                        None
                    },
                    FilterOperator::Lt => if r.ordered {
                        Some(pred(r.column, Comparison::Lt, o))
                    } else {
                        None
                    },
                    FilterOperator::Lte => if r.ordered {
                        Some(pred(r.column, Comparison::Le, o))
                    } else {
                        None
                    },
                    _ => None,
                },
            },
        },
    }
}

fn text_field(column: &'static str, like: LikeRule) -> (r: FieldRule)
    ensures
        r@ == text_rule(column@, like),
{
    FieldRule { column, kind: ValueKind::Text, like, ordered: false, null_checks: false }
}

fn value_field(column: &'static str, kind: ValueKind, ordered: bool, null_checks: bool) -> (r: FieldRule)
    ensures
        r@ == rule(column@, kind, LikeRule::NotAllowed, ordered, null_checks),
{
    FieldRule { column, kind, like: LikeRule::NotAllowed, ordered, null_checks }
}

/// The rule for `field` when filtering `resource`.
pub fn find_field_rule(resource: Resource, field: &str) -> (r: Option<FieldRule>)
    ensures
        match r {
            Some(x) => field_rule(resource, field@) == Some(x@),
            None => field_rule(resource, field@) is None,
        },
{
    match resource {
        Resource::Product => if str_eq(field, "name") {
            Some(text_field("name", LikeRule::Contains))
        } else if str_eq(field, "slug") {
            Some(text_field("slug", LikeRule::Contains))
        } else if str_eq(field, "stock_status") || str_eq(field, "status") {
            Some(text_field("stock_status", LikeRule::NotAllowed))
        } else if str_eq(field, "is_visible") {
            Some(value_field("is_visible", ValueKind::Bool, false, false))
        } else if str_eq(field, "is_featured") {
            Some(value_field("is_featured", ValueKind::Bool, false, false))
        } else if str_eq(field, "brand_id") {
            Some(value_field("brand_id", ValueKind::Int, false, false))
        } else if str_eq(field, "account_id") {
            Some(value_field("account_id", ValueKind::Int, false, false))
        } else {
            None
        },
        Resource::User => if str_eq(field, "email") {
            Some(text_field("email", LikeRule::AsGiven))
        } else if str_eq(field, "first_name") {
            Some(text_field("first_name", LikeRule::AsGiven))
        } else if str_eq(field, "last_name") {
            Some(text_field("last_name", LikeRule::AsGiven))
        } else if str_eq(field, "account_status") {
            Some(text_field("account_status", LikeRule::NotAllowed))
        } else if str_eq(field, "enabled") {
            Some(value_field("enabled", ValueKind::Bool, false, false))
        } else if str_eq(field, "locked") {
            Some(value_field("locked", ValueKind::Bool, false, false))
        } else {
            None
        },
        Resource::Media => if str_eq(field, "filename") {
            Some(text_field("filename", LikeRule::AsGiven))
        } else if str_eq(field, "mime_type") {
            Some(text_field("mime_type", LikeRule::AsGiven))
        } else if str_eq(field, "is_public") {
            Some(value_field("is_public", ValueKind::Bool, false, false))
        } else if str_eq(field, "uploaded_by") {
            Some(value_field("uploaded_by", ValueKind::Int, false, true))
        } else {
            None
        },
        Resource::AuditLog => if str_eq(field, "entity") {
            Some(text_field("entity", LikeRule::AsGiven))
        } else if str_eq(field, "action") {
            Some(text_field("action", LikeRule::NotAllowed))
        } else if str_eq(field, "entity_id") {
            Some(text_field("entity_id", LikeRule::NotAllowed))
        } else if str_eq(field, "user_id") {
            Some(value_field("user_id", ValueKind::Int, false, true))
        } else {
            None
        },
        Resource::Organization => if str_eq(field, "name") {
            Some(text_field("name", LikeRule::AsGiven))
        } else if str_eq(field, "email") {
            Some(text_field("email", LikeRule::AsGiven))
        } else if str_eq(field, "city") {
            Some(text_field("city", LikeRule::AsGiven))
        } else if str_eq(field, "country") {
            Some(text_field("country", LikeRule::NotAllowed))
        } else if str_eq(field, "account_id") {
            Some(value_field("account_id", ValueKind::Int, false, false))
        } else if str_eq(field, "id") {
            Some(value_field("id", ValueKind::Int, true, false))
        } else {
            None
        },
        _ => None,
    }
}

fn predicate(column: &str, comparison: Comparison, operand: Operand) -> (p: Predicate)
    ensures
        p@ == pred(column@, comparison, operand@),
{
    Predicate { column: string_of(column), comparison, operand }
}

/// The predicate that `cond` adds to a query on `resource`, if any.
pub fn filter_to_predicate(resource: Resource, cond: &FilterCondition) -> (r: Option<Predicate>)
    ensures
        match r {
            Some(p) => filter_predicate(resource, cond@) == Some(p@),
            None => filter_predicate(resource, cond@) is None,
        },
{
    let r = match find_field_rule(resource, cond.field.as_str()) {
        Some(r) => r,
        None => return None,
    };
    let v: &String = match &cond.value {
        Some(v) => v,
        None => {
            if r.null_checks {
                return match cond.operator {
                    FilterOperator::Null => Some(predicate(r.column, Comparison::IsNull, Operand::Absent)),
                    FilterOperator::NotNull => Some(predicate(r.column, Comparison::IsNotNull, Operand::Absent)),
                    _ => None,
                };
            }
            return None;
        },
    };
    let o: Operand = match r.kind {
        ValueKind::Text => Operand::Text(v.clone()),
        ValueKind::Bool => match parse_bool(v.as_str()) {
            Some(b) => Operand::Flag(b),
            None => return None,
        },
        ValueKind::Int => match parse_i32(v.as_str()) {
            Some(i) => Operand::Id(i),
            None => return None,
        },
    };
    assert(operand_for(r.kind, v@) == Some(o@));
    match cond.operator {
        FilterOperator::Eq => Some(predicate(r.column, Comparison::Eq, o)),
        FilterOperator::Neq => Some(predicate(r.column, Comparison::Ne, o)),
        FilterOperator::Like => match r.like {
            LikeRule::NotAllowed => None,
            LikeRule::AsGiven => Some(predicate(r.column, Comparison::Like, o)),
            LikeRule::Contains => {
                let mut pattern = string_of("%");
                push_str(&mut pattern, v.as_str());
                push_str(&mut pattern, "%");
                Some(predicate(r.column, Comparison::Like, Operand::Text(pattern)))
            },
        },
        FilterOperator::Gt => if r.ordered {
            Some(predicate(r.column, Comparison::Gt, o))
        } else {
            None
        },
        FilterOperator::Gte => if r.ordered {
            Some(predicate(r.column, Comparison::Ge, o))
        } else {
            None
        },
        FilterOperator::Lt => if r.ordered {
            Some(predicate(r.column, Comparison::Lt, o))
        } else {
            None
        },
        FilterOperator::Lte => if r.ordered {
            Some(predicate(r.column, Comparison::Le, o))
        } else {
            None
        },
        _ => None,
    }
}

/// A sort field and its direction.
pub type SortField = (String, SortDirection);

/// The content of a list of sort fields.
pub open spec fn sort_views(v: Seq<SortField>) -> Seq<(Seq<char>, SortDirection)> {
    v.map_values(|s: SortField| (s.0@, s.1))
}

/// `field` is a column that listings of `resource` can be sorted by.
pub open spec fn sortable(resource: Resource, field: Seq<char>) -> bool {
    match resource {
        Resource::Product => field == "name"@ || field == "price"@ || field == "created_at"@
            || field == "updated_at"@ || field == "quantity"@,
        Resource::User => field == "email"@ || field == "first_name"@ || field == "last_name"@
            || field == "created_at"@ || field == "updated_at"@,
        Resource::Media => field == "filename"@ || field == "file_size"@ || field == "created_at"@
            || field == "updated_at"@,
        Resource::AuditLog => field == "entity"@ || field == "action"@ || field == "created_at"@,
        Resource::Organization => field == "name"@ || field == "email"@ || field == "city"@
            || field == "created_at"@,
        Resource::Brand => field == "name"@ || field == "created_at"@,
        Resource::Customer => field == "name"@ || field == "email"@ || field == "created_at"@,
        _ => false,
    }
}

/// The sort fields of `sorts` that `resource` can be sorted by, in order.
pub open spec fn known_sorts(resource: Resource, sorts: Seq<(Seq<char>, SortDirection)>) -> Seq<
    (Seq<char>, SortDirection),
>
    decreases sorts.len(),
{
    if sorts.len() == 0 {
        Seq::empty()
    } else {
        known_sorts(resource, sorts.drop_last()) + if sortable(resource, sorts.last().0) {
            seq![sorts.last()]
        } else {
            Seq::empty()
        }
    }
}

/// The ordering that the sort fields `sorts` give a listing of `resource`,
/// most significant first. Products keep only the last known sort field
/// (each one replaces the one before), and without sort fields are listed
/// newest first; organizations, brands and customers are listed by name
/// without sort fields; the others take every known field in turn.
pub open spec fn sort_order(resource: Resource, sorts: Seq<(Seq<char>, SortDirection)>) -> Seq<
    (Seq<char>, SortDirection),
> {
    match resource {
        Resource::Product => if sorts.len() == 0 {
            seq![("created_at"@, SortDirection::Descending)]
        } else {
            let k = known_sorts(resource, sorts);
            if k.len() == 0 {
                Seq::empty()
            } else {
                seq![k.last()]
            }
        },
        Resource::Organization | Resource::Brand | Resource::Customer => if sorts.len() == 0 {
            seq![("name"@, SortDirection::Ascending)]
        } else {
            known_sorts(resource, sorts)
        },
        _ => known_sorts(resource, sorts),
    }
}

/// Whether listings of `resource` can be sorted by `field`.
pub fn is_sortable(resource: Resource, field: &str) -> (r: bool)
    ensures
        r == sortable(resource, field@),
{
    match resource {
        Resource::Product => str_eq(field, "name") || str_eq(field, "price") || str_eq(field, "created_at")
            || str_eq(field, "updated_at") || str_eq(field, "quantity"),
        Resource::User => str_eq(field, "email") || str_eq(field, "first_name") || str_eq(field, "last_name")
            || str_eq(field, "created_at") || str_eq(field, "updated_at"),
        Resource::Media => str_eq(field, "filename") || str_eq(field, "file_size") || str_eq(field, "created_at")
            || str_eq(field, "updated_at"),
        Resource::AuditLog => str_eq(field, "entity") || str_eq(field, "action") || str_eq(field, "created_at"),
        Resource::Organization => str_eq(field, "name") || str_eq(field, "email") || str_eq(field, "city")
            || str_eq(field, "created_at"),
        Resource::Brand => str_eq(field, "name") || str_eq(field, "created_at"),
        Resource::Customer => str_eq(field, "name") || str_eq(field, "email") || str_eq(field, "created_at"),
        _ => false,
    }
}

fn known_sort_fields(resource: Resource, sorts: &[SortField]) -> (r: Vec<SortField>)
    ensures
        sort_views(r@) == known_sorts(resource, sort_views(sorts@)),
{
    let ghost all = sort_views(sorts@);
    let mut r: Vec<SortField> = Vec::new();
    let mut i: usize = 0;
    while i < sorts.len()
        invariant
            i <= sorts@.len(),
            all == sort_views(sorts@),
            sort_views(r@) == known_sorts(resource, all.take(i as int)),
        decreases sorts@.len() - i,
    {
        let ghost prev = r@;
        assert(all.take(i + 1).drop_last() =~= all.take(i as int));
        assert(all.take(i + 1).last() == all[i as int]);
        if is_sortable(resource, sorts[i].0.as_str()) {
            let x = (sorts[i].0.clone(), sorts[i].1);
            r.push(x);
            assert(sort_views(r@) =~= sort_views(prev).push((x.0@, x.1)));
        } else {
            assert(sort_views(r@) =~= sort_views(prev) + Seq::empty());
        }
        i = i + 1;
    }
    assert(all.take(sorts@.len() as int) =~= all);
    r
}

fn sort_field(field: &str, direction: SortDirection) -> (r: SortField)
    ensures
        r.0@ == field@,
        r.1 == direction,
{
    (string_of(field), direction)
}

/// The ordering that the sort fields `sorts` give a listing of `resource`.
pub fn order_for(resource: Resource, sorts: &[SortField]) -> (r: Vec<SortField>)
    ensures
        sort_views(r@) == sort_order(resource, sort_views(sorts@)),
{
    match resource {
        Resource::Product => {
            if sorts.len() == 0 {
                let mut r: Vec<SortField> = Vec::new();
                r.push(sort_field("created_at", SortDirection::Descending));
                assert(sort_views(r@) =~= sort_order(resource, sort_views(sorts@)));
                r
            } else {
                let mut k = known_sort_fields(resource, sorts);
                let mut r: Vec<SortField> = Vec::new();
                if k.len() > 0 {
                    let last = k.pop().unwrap();
                    r.push(last);
                }
                assert(sort_views(r@) =~= sort_order(resource, sort_views(sorts@)));
                r
            }
        },
        Resource::Organization | Resource::Brand | Resource::Customer => {
            if sorts.len() == 0 {
                let mut r: Vec<SortField> = Vec::new();
                r.push(sort_field("name", SortDirection::Ascending));
                assert(sort_views(r@) =~= sort_order(resource, sort_views(sorts@)));
                r
            } else {
                known_sort_fields(resource, sorts)
            }
        },
        _ => known_sort_fields(resource, sorts),
    }
}

/// The parameters of a listing request.
#[derive(Debug, Clone)]
pub struct QueryParams {
    pub filters: Vec<FilterCondition>,
    pub sort: Vec<SortField>,
    pub page: PageParams,
    pub includes: Vec<String>,
}

/// The rows of a page start after `(number - 1) * size` others.
pub open spec fn page_offset(page: PageParams) -> int {
    (page.number - 1) * page.size
}

/// The offset of a page fits the 64-bit integers the database takes.
pub open spec fn page_in_range(page: PageParams) -> bool {
    i64::MIN <= page.number - 1 && i64::MIN <= page_offset(page) <= i64::MAX
}

/// The number of rows that come before the page.
pub fn offset_of(page: PageParams) -> (r: i64)
    requires
        page_in_range(page),
    ensures
        r == page_offset(page),
{
    (page.number - 1) * page.size
}

/// The predicates that the filters `conds` add to a query on `resource`, in
/// order; the conditions that add nothing are left out.
pub open spec fn filter_predicates(resource: Resource, conds: Seq<FilterView>) -> Seq<PredicateView>
    decreases conds.len(),
{
    if conds.len() == 0 {
        Seq::empty()
    } else {
        filter_predicates(resource, conds.drop_last()) + match filter_predicate(resource, conds.last()) {
            Some(p) => seq![p],
            None => Seq::empty(),
        }
    }
}

/// The views of a list of filter conditions.
pub open spec fn filter_views(v: Seq<FilterCondition>) -> Seq<FilterView> {
    v.map_values(|c: FilterCondition| c@)
}

/// The views of a list of predicates.
pub open spec fn predicate_views(v: Seq<Predicate>) -> Seq<PredicateView> {
    v.map_values(|p: Predicate| p@)
}

/// The predicates that `conds` add to a query on `resource`, in order.
pub fn predicates_for(resource: Resource, conds: &[FilterCondition]) -> (r: Vec<Predicate>)
    ensures
        predicate_views(r@) == filter_predicates(resource, filter_views(conds@)),
{
    let ghost all = filter_views(conds@);
    let mut r: Vec<Predicate> = Vec::new();
    let mut i: usize = 0;
    while i < conds.len()
        invariant
            i <= conds@.len(),
            all == filter_views(conds@),
            predicate_views(r@) == filter_predicates(resource, all.take(i as int)),
        decreases conds@.len() - i,
    {
        let ghost prev = r@;
        assert(all.take(i + 1).drop_last() =~= all.take(i as int));
        assert(all.take(i + 1).last() == conds@[i as int]@);
        match filter_to_predicate(resource, &conds[i]) {
            Some(p) => {
                r.push(p);
                assert(predicate_views(r@) =~= predicate_views(prev).push(p@));
            },
            None => {
                assert(predicate_views(r@) =~= predicate_views(prev) + Seq::empty());
            },
        }
        i = i + 1;
    }
    assert(all.take(conds@.len() as int) =~= all);
    r
}

/// What a listing query reads: the rows meeting every predicate (and the
/// search, when there is one: the pattern matched with `like` against any of
/// the search columns), without soft-deleted rows when asked, in the given
/// order, `limit` rows after `offset` others.
#[derive(Debug, Clone)]
pub struct ListingPlan {
    pub predicates: Vec<Predicate>,
    pub search_pattern: Option<String>,
    pub search_columns: Vec<&'static str>,
    pub exclude_deleted: bool,
    pub order: Vec<SortField>,
    pub limit: i64,
    pub offset: i64,
}

/// The resources whose soft-deleted rows are left out of listings.
pub open spec fn soft_deletes(resource: Resource) -> bool {
    resource == Resource::Product || resource == Resource::Order
}

/// The ordering of a plain listing of `resource`: brands, customers,
/// addresses and orders newest first, order items by id, accounts in no set
/// order, the others as their sort fields say.
pub open spec fn listing_order(resource: Resource, sorts: Seq<(Seq<char>, SortDirection)>) -> Seq<
    (Seq<char>, SortDirection),
> {
    match resource {
        Resource::Brand | Resource::Customer | Resource::Address | Resource::Order => seq![
            ("created_at"@, SortDirection::Descending),
        ],
        Resource::OrderItem => seq![("id"@, SortDirection::Ascending)],
        Resource::Account => Seq::empty(),
        _ => sort_order(resource, sorts),
    }
}

/// The plan of a plain listing of `resource`: the filters that apply, the
/// ordering, and the page.
pub fn listing_plan(resource: Resource, params: &QueryParams) -> (p: ListingPlan)
    requires
        page_in_range(params.page),
    ensures
        predicate_views(p.predicates@) == filter_predicates(resource, filter_views(params.filters@)),
        p.search_pattern is None,
        p.search_columns@.len() == 0,
        p.exclude_deleted == soft_deletes(resource),
        resource == Resource::Product || resource == Resource::Order ==> p.exclude_deleted,
        sort_views(p.order@) == listing_order(resource, sort_views(params.sort@)),
        p.limit == params.page.size,
        p.offset == page_offset(params.page),
{
    let order: Vec<SortField> = match resource {
        Resource::Brand | Resource::Customer | Resource::Address | Resource::Order => {
            let mut r: Vec<SortField> = Vec::new();
            r.push(sort_field("created_at", SortDirection::Descending));
            r
        },
        Resource::OrderItem => {
            let mut r: Vec<SortField> = Vec::new();
            r.push(sort_field("id", SortDirection::Ascending));
            r
        },
        Resource::Account => Vec::new(),
        _ => order_for(resource, params.sort.as_slice()),
    };
    assert(sort_views(order@) =~= listing_order(resource, sort_views(params.sort@)));
    ListingPlan {
        predicates: predicates_for(resource, params.filters.as_slice()),
        search_pattern: None,
        search_columns: Vec::new(),
        exclude_deleted: resource == Resource::Product || resource == Resource::Order,
        order,
        limit: params.page.size,
        offset: offset_of(params.page),
    }
}

/// The `like` pattern of a search: the text with `%` on both sides, and no
/// search for an absent or empty text.
pub open spec fn search_pattern_of(search: Option<Seq<char>>) -> Option<Seq<char>> {
    match search {
        Some(s) => if s.len() > 0 {
            Some("%"@ + s + "%"@)
        } else {
            None
        },
        None => None,
    }
}

/// The `like` pattern of a search.
pub fn search_pattern(search: Option<&str>) -> (r: Option<String>)
    ensures
        opt_view(r) == search_pattern_of(
            match search {
                Some(s) => Some(s@),
                None => None,
            },
        ),
{
    match search {
        Some(s) => {
            if s.unicode_len() > 0 {
                let mut p = string_of("%");
                push_str(&mut p, s);
                push_str(&mut p, "%");
                Some(p)
            } else {
                None
            }
        },
        None => None,
    }
}

/// The columns a search of `resource` looks in.
pub open spec fn search_columns_of(resource: Resource) -> Seq<Seq<char>> {
    match resource {
        Resource::Product => seq!["name"@, "description"@],
        Resource::Organization | Resource::Customer => seq!["name"@, "email"@],
        Resource::Brand => seq!["name"@],
        _ => Seq::empty(),
    }
}

fn search_columns(resource: Resource) -> (r: Vec<&'static str>)
    ensures
        r@.map_values(|c: &str| c@) == search_columns_of(resource),
{
    let mut r: Vec<&'static str> = Vec::new();
    match resource {
        Resource::Product => {
            r.push("name");
            r.push("description");
        },
        Resource::Organization | Resource::Customer => {
            r.push("name");
            r.push("email");
        },
        Resource::Brand => {
            r.push("name");
        },
        _ => {},
    }
    assert(r@.map_values(|c: &str| c@) =~= search_columns_of(resource));
    r
}

/// The plan of a listing of the rows of `resource` that belong to the
/// account `account_id`, narrowed by a search: the sort fields apply, the
/// filters do not.
pub fn account_listing_plan(resource: Resource, account_id: i32, search: Option<&str>, params: &QueryParams) -> (p:
    ListingPlan)
    requires
        page_in_range(params.page),
    ensures
        predicate_views(p.predicates@) == seq![
            pred("account_id"@, Comparison::Eq, OperandView::Id(account_id)),
        ],
        opt_view(p.search_pattern) == search_pattern_of(
            match search {
                Some(s) => Some(s@),
                None => None,
            },
        ),
        p.search_columns@.map_values(|c: &str| c@) == search_columns_of(resource),
        p.exclude_deleted == (resource == Resource::Product),
        sort_views(p.order@) == sort_order(resource, sort_views(params.sort@)),
        p.limit == params.page.size,
        p.offset == page_offset(params.page),
{
    let mut predicates: Vec<Predicate> = Vec::new();
    predicates.push(predicate("account_id", Comparison::Eq, Operand::Id(account_id)));
    assert(predicate_views(predicates@) =~= seq![
        pred("account_id"@, Comparison::Eq, OperandView::Id(account_id)),
    ]);
    ListingPlan {
        predicates,
        search_pattern: search_pattern(search),
        search_columns: search_columns(resource),
        exclude_deleted: resource == Resource::Product,
        order: order_for(resource, params.sort.as_slice()),
        limit: params.page.size,
        offset: offset_of(params.page),
    }
}

/// The plan of a listing of the audit-log entries of the user `user_id`:
/// the filters and sort fields apply on top.
pub fn user_audit_plan(user_id: i32, params: &QueryParams) -> (p: ListingPlan)
    requires
        page_in_range(params.page),
    ensures
        predicate_views(p.predicates@) == seq![pred("user_id"@, Comparison::Eq, OperandView::Id(user_id))]
            + filter_predicates(Resource::AuditLog, filter_views(params.filters@)),
        p.search_pattern is None,
        p.search_columns@.len() == 0,
        !p.exclude_deleted,
        sort_views(p.order@) == sort_order(Resource::AuditLog, sort_views(params.sort@)),
        p.limit == params.page.size,
        p.offset == page_offset(params.page),
{
    let mut predicates: Vec<Predicate> = Vec::new();
    predicates.push(predicate("user_id", Comparison::Eq, Operand::Id(user_id)));
    let mut rest = predicates_for(Resource::AuditLog, params.filters.as_slice());
    let ghost first = predicate_views(predicates@);
    let ghost tail = predicate_views(rest@);
    predicates.append(&mut rest);
    assert(predicate_views(predicates@) =~= first + tail);
    ListingPlan {
        predicates,
        search_pattern: None,
        search_columns: Vec::new(),
        exclude_deleted: false,
        order: order_for(Resource::AuditLog, params.sort.as_slice()),
        limit: params.page.size,
        offset: offset_of(params.page),
    }
}

/// The foreign keys by which rows of `resource` can be loaded in batches.
pub open spec fn foreign_key_of(resource: Resource, key: Seq<char>) -> bool {
    match resource {
        Resource::Address | Resource::Order => key == "customer_id"@ || key == "account_id"@,
        Resource::AuditLog => key == "user_id"@,
        Resource::Brand | Resource::Customer | Resource::Organization | Resource::User => key == "account_id"@,
        Resource::Media => key == "uploaded_by"@,
        Resource::OrderItem => key == "order_id"@ || key == "product_id"@,
        Resource::Product => key == "brand_id"@ || key == "account_id"@,
        Resource::Account => false,
    }
}

/// Whether rows of `resource` can be loaded in batches by the column `key`;
/// for any other key the batch is empty.
pub fn is_foreign_key(resource: Resource, key: &str) -> (r: bool)
    ensures
        r == foreign_key_of(resource, key@),
{
    match resource {
        Resource::Address | Resource::Order => str_eq(key, "customer_id") || str_eq(key, "account_id"),
        Resource::AuditLog => str_eq(key, "user_id"),
        Resource::Brand | Resource::Customer | Resource::Organization | Resource::User => str_eq(key, "account_id"),
        Resource::Media => str_eq(key, "uploaded_by"),
        Resource::OrderItem => str_eq(key, "order_id") || str_eq(key, "product_id"),
        Resource::Product => str_eq(key, "brand_id") || str_eq(key, "account_id"),
        Resource::Account => false,
    }
}

proof fn lemma_known_sorts_sortable(resource: Resource, sorts: Seq<(Seq<char>, SortDirection)>)
    ensures
        forall|i: int|
            0 <= i < known_sorts(resource, sorts).len() ==> sortable(resource, #[trigger] known_sorts(resource, sorts)[i].0),
        known_sorts(resource, sorts).len() <= sorts.len(),
    decreases sorts.len(),
{
    if sorts.len() > 0 {
        lemma_known_sorts_sortable(resource, sorts.drop_last());
        let prev = known_sorts(resource, sorts.drop_last());
        assert forall|i: int| 0 <= i < known_sorts(resource, sorts).len() implies sortable(
            resource,
            #[trigger] known_sorts(resource, sorts)[i].0,
        ) by {
            if i < prev.len() {
                assert(known_sorts(resource, sorts)[i] == prev[i]);
            }
        }
    }
}

/// A listing is only ever ordered by columns the resource can be sorted by,
/// and never by more columns than were asked for (one when none were).
pub proof fn law_order_uses_sortable_columns(resource: Resource, sorts: Seq<(Seq<char>, SortDirection)>)
    ensures
        forall|i: int|
            0 <= i < sort_order(resource, sorts).len() ==> sortable(resource, #[trigger] sort_order(resource, sorts)[i].0),
        sort_order(resource, sorts).len() <= if sorts.len() == 0 {
            1
        } else {
            sorts.len()
        },
{
    lemma_known_sorts_sortable(resource, sorts);
    reveal_strlit("created_at");
    reveal_strlit("name");
}

/// Products are ordered by one column at most: each sort field replaces the
/// one before.
pub proof fn law_product_orders_by_one_column(sorts: Seq<(Seq<char>, SortDirection)>)
    ensures
        sort_order(Resource::Product, sorts).len() <= 1,
        sorts.len() > 0 && known_sorts(Resource::Product, sorts).len() > 0 ==> sort_order(
            Resource::Product,
            sorts,
        ) == seq![known_sorts(Resource::Product, sorts).last()],
{
}

/// A filter on a field the resource does not know adds nothing to the query.
pub proof fn law_unknown_fields_ignored(resource: Resource, cond: FilterView)
    requires
        field_rule(resource, cond.field) is None,
    ensures
        filter_predicate(resource, cond) is None,
{
}

/// Only products, users, media, audit logs and organizations can be
/// filtered: for every other resource the filters add nothing.
pub proof fn law_other_resources_ignore_filters(resource: Resource, conds: Seq<FilterView>)
    requires
        resource != Resource::Product,
        resource != Resource::User,
        resource != Resource::Media,
        resource != Resource::AuditLog,
        resource != Resource::Organization,
    ensures
        filter_predicates(resource, conds) == Seq::<PredicateView>::empty(),
    decreases conds.len(),
{
    if conds.len() > 0 {
        law_other_resources_ignore_filters(resource, conds.drop_last());
        assert(filter_predicates(resource, conds) =~= Seq::<PredicateView>::empty());
    }
}

/// Consecutive pages of one size follow each other without gap or overlap:
/// the next page starts where this one ends.
pub proof fn law_pages_follow_each_other(number: i64, size: i64)
    requires
        number < i64::MAX,
    ensures
        page_offset(PageParams { number: (number + 1) as i64, size }) == page_offset(PageParams { number, size })
            + size,
{
    assert((number + 1 - 1) * size == (number - 1) * size + size) by (nonlinear_arith);
}

/// On a field that takes ranges, each range operator compares the field's
/// column with the value, read as the field's kind: `gt` keeps the rows
/// above it, `gte` the rows at or above it, `lt` the rows below it and `lte`
/// the rows at or below it.
pub proof fn law_range_operators(resource: Resource, cond: FilterView)
    requires
        field_rule(resource, cond.field) is Some,
        field_rule(resource, cond.field).unwrap().ordered,
        cond.value is Some,
        operand_for(field_rule(resource, cond.field).unwrap().kind, cond.value.unwrap()) is Some,
    ensures
        ({
            let r = field_rule(resource, cond.field).unwrap();
            let o = operand_for(r.kind, cond.value.unwrap()).unwrap();
            let p = filter_predicate(resource, cond);
            &&& cond.operator == FilterOperator::Gt ==> p == Some(
                PredicateView { column: r.column, comparison: Comparison::Gt, operand: o },
            )
            &&& cond.operator == FilterOperator::Gte ==> p == Some(
                PredicateView { column: r.column, comparison: Comparison::Ge, operand: o },
            )
            &&& cond.operator == FilterOperator::Lt ==> p == Some(
                PredicateView { column: r.column, comparison: Comparison::Lt, operand: o },
            )
            &&& cond.operator == FilterOperator::Lte ==> p == Some(
                PredicateView { column: r.column, comparison: Comparison::Le, operand: o },
            )
        }),
{
}

/// Organizations can be filtered by id, ranges included: for every value
/// that reads as an id `n`, `eq`, `neq`, `gt`, `gte`, `lt` and `lte` compare
/// the `id` column with `n` as `=`, `<>`, `>`, `>=`, `<` and `<=`, and `like`
/// adds nothing.
pub proof fn law_organization_id_ranges(v: Seq<char>, op: FilterOperator)
    requires
        parsed_i32(v) is Some,
    ensures
        ({
            let n = OperandView::Id(parsed_i32(v).unwrap());
            let p = filter_predicate(
                Resource::Organization,
                FilterView { field: "id"@, operator: op, value: Some(v) },
            );
            &&& op == FilterOperator::Eq ==> p == Some(pred("id"@, Comparison::Eq, n))
            &&& op == FilterOperator::Neq ==> p == Some(pred("id"@, Comparison::Ne, n))
            &&& op == FilterOperator::Gt ==> p == Some(pred("id"@, Comparison::Gt, n))
            &&& op == FilterOperator::Gte ==> p == Some(pred("id"@, Comparison::Ge, n))
            &&& op == FilterOperator::Lt ==> p == Some(pred("id"@, Comparison::Lt, n))
            &&& op == FilterOperator::Lte ==> p == Some(pred("id"@, Comparison::Le, n))
            &&& op == FilterOperator::Like ==> p is None
        }),
{
    reveal_strlit("id");
    reveal_strlit("name");
    reveal_strlit("email");
    reveal_strlit("city");
    reveal_strlit("country");
    reveal_strlit("account_id");
    assert("id"@ != "name"@ && "id"@ != "email"@ && "id"@ != "city"@ && "id"@ != "country"@
        && "id"@ != "account_id"@) by {
        assert("id"@.len() == 2);
    }
    assert(field_rule(Resource::Organization, "id"@) == Some(
        rule("id"@, ValueKind::Int, LikeRule::NotAllowed, true, false),
    ));
    assert(operand_for(ValueKind::Int, v) == Some(OperandView::Id(parsed_i32(v).unwrap())));
}

/// The fields that each resource's listings can be sorted by: products by
/// name, price, creation, update and quantity; users by e-mail, names,
/// creation and update; media by file name, size, creation and update; audit
/// logs by entity, action and creation; organizations by name, e-mail, city
/// and creation; brands by name and creation; customers by name, e-mail and
/// creation; nothing else. A listing sorted by one field is ordered by that
/// field in the direction asked when it is one of these, and the field is
/// dropped otherwise.
pub proof fn law_single_sort_field(resource: Resource, field: Seq<char>, direction: SortDirection)
    ensures
        sort_order(resource, seq![(field, direction)]) == if (match resource {
            Resource::Product => field == "name"@ || field == "price"@ || field == "created_at"@
                || field == "updated_at"@ || field == "quantity"@,
            Resource::User => field == "email"@ || field == "first_name"@ || field == "last_name"@
                || field == "created_at"@ || field == "updated_at"@,
            Resource::Media => field == "filename"@ || field == "file_size"@ || field == "created_at"@
                || field == "updated_at"@,
            Resource::AuditLog => field == "entity"@ || field == "action"@ || field == "created_at"@,
            Resource::Organization => field == "name"@ || field == "email"@ || field == "city"@
                || field == "created_at"@,
            Resource::Brand => field == "name"@ || field == "created_at"@,
            Resource::Customer => field == "name"@ || field == "email"@ || field == "created_at"@,
            _ => false,
        }) {
            seq![(field, direction)]
        } else {
            Seq::empty()
        },
{
    let sorts = seq![(field, direction)];
    assert(sorts.drop_last() =~= Seq::<(Seq<char>, SortDirection)>::empty());
    assert(known_sorts(resource, sorts.drop_last()) =~= Seq::<(Seq<char>, SortDirection)>::empty());
    if sortable(resource, field) {
        assert(known_sorts(resource, sorts) =~= sorts);
    } else {
        assert(known_sorts(resource, sorts) =~= Seq::<(Seq<char>, SortDirection)>::empty());
    }
}

proof fn lemma_known_sorts_all(resource: Resource, sorts: Seq<(Seq<char>, SortDirection)>)
    requires
        forall|i: int| 0 <= i < sorts.len() ==> sortable(resource, #[trigger] sorts[i].0),
    ensures
        known_sorts(resource, sorts) == sorts,
    decreases sorts.len(),
{
    if sorts.len() > 0 {
        let prev = sorts.drop_last();
        assert forall|i: int| 0 <= i < prev.len() implies sortable(resource, #[trigger] prev[i].0) by {
            assert(prev[i] == sorts[i]);
        }
        lemma_known_sorts_all(resource, prev);
        assert(sortable(resource, sorts[sorts.len() - 1].0));
        assert(known_sorts(resource, sorts) =~= sorts);
    }
}

/// Apart from products, which keep only the last, a listing sorted by fields
/// that the resource can all be sorted by is ordered by every one of them,
/// in the order asked, each in its direction.
pub proof fn law_sort_fields_kept(resource: Resource, sorts: Seq<(Seq<char>, SortDirection)>)
    requires
        resource != Resource::Product,
        sorts.len() > 0,
        forall|i: int| 0 <= i < sorts.len() ==> sortable(resource, #[trigger] sorts[i].0),
    ensures
        sort_order(resource, sorts) == sorts,
{
    lemma_known_sorts_all(resource, sorts);
}

/// Products and orders are deleted softly: plain listings of them leave the
/// soft-deleted rows out. The other resources are deleted for good, and
/// their listings do not look for soft-deleted rows.
pub proof fn law_soft_deleted_rows_left_out(resource: Resource)
    ensures
        resource == Resource::Product ==> soft_deletes(resource),
        resource == Resource::Order ==> soft_deletes(resource),
        resource != Resource::Product && resource != Resource::Order ==> !soft_deletes(resource),
{
}

/// How each operator reads a condition on a field that can be filtered:
/// `eq` and `neq` compare the field's column with the value read as the
/// field's kind; `like` matches the value as given, or anywhere in the
/// column (`%` on both sides) for fields matched that way, and adds nothing
/// on fields that do not take it; `null` and `not_null` without a value test
/// the column for null on fields that take them. A value that does not read
/// as the field's kind, a missing value, or a range on a field without one
/// adds nothing.
pub proof fn law_filter_operators(resource: Resource, cond: FilterView)
    requires
        field_rule(resource, cond.field) is Some,
    ensures
        ({
            let r = field_rule(resource, cond.field).unwrap();
            let p = filter_predicate(resource, cond);
            &&& cond.value is Some && operand_for(r.kind, cond.value.unwrap()) is Some ==> {
                let v = cond.value.unwrap();
                let o = operand_for(r.kind, v).unwrap();
                &&& cond.operator == FilterOperator::Eq ==> p == Some(
                    PredicateView { column: r.column, comparison: Comparison::Eq, operand: o },
                )
                &&& cond.operator == FilterOperator::Neq ==> p == Some(
                    PredicateView { column: r.column, comparison: Comparison::Ne, operand: o },
                )
                &&& cond.operator == FilterOperator::Like ==> p == (match r.like {
                    LikeRule::NotAllowed => None,
                    LikeRule::AsGiven => Some(
                        PredicateView { column: r.column, comparison: Comparison::Like, operand: o },
                    ),
                    LikeRule::Contains => Some(
                        PredicateView {
                            column: r.column,
                            comparison: Comparison::Like,
                            operand: OperandView::Text("%"@ + v + "%"@),
                        },
                    ),
                })
                &&& cond.operator == FilterOperator::Null ==> p is None
                &&& cond.operator == FilterOperator::NotNull ==> p is None
                &&& !r.ordered && (cond.operator == FilterOperator::Gt || cond.operator
                    == FilterOperator::Gte || cond.operator == FilterOperator::Lt || cond.operator
                    == FilterOperator::Lte) ==> p is None
            }
            &&& cond.value is Some && operand_for(r.kind, cond.value.unwrap()) is None ==> p is None
            &&& cond.value is None ==> p == (if r.null_checks && cond.operator == FilterOperator::Null {
                Some(
                    PredicateView {
                        column: r.column,
                        comparison: Comparison::IsNull,
                        operand: OperandView::Absent,
                    },
                )
            } else if r.null_checks && cond.operator == FilterOperator::NotNull {
                Some(
                    PredicateView {
                        column: r.column,
                        comparison: Comparison::IsNotNull,
                        operand: OperandView::Absent,
                    },
                )
            } else {
                None
            })
        }),
{
}

/// The fields each resource can be filtered on, and how: products by name
/// and slug (matched anywhere by `like`), stock status (also as `status`),
/// visibility and featuring (flags) and brand and account (ids); users by
/// e-mail and names (`like` as given), account status, and the enabled and
/// locked flags; media by file name and MIME type (`like` as given), the
/// public flag and the uploader (an id that may be null); audit logs by
/// entity (`like` as given), action and entity id, and user (an id that may
/// be null); organizations by name, e-mail and city (`like` as given),
/// country, account (an id) and id (an id taking ranges). Each filters its
/// own column, but `status`, which filters `stock_status`. No other field
/// of these, and no field of another resource, can be filtered.
#[verifier::rlimit(50)]
pub proof fn law_filterable_fields(resource: Resource, field: Seq<char>)
    ensures
        ({
            let listed = match resource {
                Resource::Product => field == "name"@ || field == "slug"@ || field == "stock_status"@
                    || field == "status"@ || field == "is_visible"@ || field == "is_featured"@
                    || field == "brand_id"@ || field == "account_id"@,
                Resource::User => field == "email"@ || field == "first_name"@ || field == "last_name"@
                    || field == "account_status"@ || field == "enabled"@ || field == "locked"@,
                Resource::Media => field == "filename"@ || field == "mime_type"@ || field == "is_public"@
                    || field == "uploaded_by"@,
                Resource::AuditLog => field == "entity"@ || field == "action"@ || field == "entity_id"@
                    || field == "user_id"@,
                Resource::Organization => field == "name"@ || field == "email"@ || field == "city"@
                    || field == "country"@ || field == "account_id"@ || field == "id"@,
                _ => false,
            };
            let flag = field == "is_visible"@ || field == "is_featured"@ || field == "enabled"@
                || field == "locked"@ || field == "is_public"@;
            let id = field == "brand_id"@ || field == "account_id"@ || field == "uploaded_by"@
                || field == "user_id"@ || field == "id"@;
            let like_anywhere = resource == Resource::Product && (field == "name"@ || field == "slug"@);
            let like_as_given = (resource == Resource::User && (field == "email"@ || field
                == "first_name"@ || field == "last_name"@)) || (resource == Resource::Media && (field
                == "filename"@ || field == "mime_type"@)) || (resource == Resource::AuditLog && field
                == "entity"@) || (resource == Resource::Organization && (field == "name"@ || field
                == "email"@ || field == "city"@));
            &&& field_rule(resource, field) is Some <==> listed
            &&& listed ==> {
                let r = field_rule(resource, field).unwrap();
                &&& r.column == (if field == "status"@ {
                    "stock_status"@
                } else {
                    field
                })
                &&& r.kind == (if flag {
                    ValueKind::Bool
                } else if id {
                    ValueKind::Int
                } else {
                    ValueKind::Text
                })
                &&& r.like == (if like_anywhere {
                    LikeRule::Contains
                } else if like_as_given {
                    LikeRule::AsGiven
                } else {
                    LikeRule::NotAllowed
                })
                &&& r.ordered == (resource == Resource::Organization && field == "id"@)
                &&& r.null_checks == (field == "uploaded_by"@ || field == "user_id"@)
            }
        }),
{
    reveal_strlit("name");
    reveal_strlit("slug");
    reveal_strlit("stock_status");
    reveal_strlit("status");
    reveal_strlit("is_visible");
    reveal_strlit("is_featured");
    reveal_strlit("brand_id");
    reveal_strlit("account_id");
    reveal_strlit("email");
    reveal_strlit("first_name");
    reveal_strlit("last_name");
    reveal_strlit("account_status");
    reveal_strlit("enabled");
    reveal_strlit("locked");
    reveal_strlit("filename");
    reveal_strlit("mime_type");
    reveal_strlit("is_public");
    reveal_strlit("uploaded_by");
    reveal_strlit("entity");
    reveal_strlit("action");
    reveal_strlit("entity_id");
    reveal_strlit("user_id");
    reveal_strlit("city");
    reveal_strlit("country");
    reveal_strlit("id");
    assert("name"@.len() == 4);
    assert("slug"@.len() == 4);
    assert("stock_status"@.len() == 12);
    assert("status"@.len() == 6);
    assert("is_visible"@.len() == 10);
    assert("is_featured"@.len() == 11);
    assert("brand_id"@.len() == 8);
    assert("account_id"@.len() == 10);
    assert("email"@.len() == 5);
    assert("first_name"@.len() == 10);
    assert("last_name"@.len() == 9);
    assert("account_status"@.len() == 14);
    assert("enabled"@.len() == 7);
    assert("locked"@.len() == 6);
    assert("filename"@.len() == 8);
    assert("mime_type"@.len() == 9);
    assert("is_public"@.len() == 9);
    assert("uploaded_by"@.len() == 11);
    assert("entity"@.len() == 6);
    assert("action"@.len() == 6);
    assert("entity_id"@.len() == 9);
    assert("user_id"@.len() == 7);
    assert("city"@.len() == 4);
    assert("country"@.len() == 7);
    assert("id"@.len() == 2);
    assert("name"@[0] != "slug"@[0]);
    assert("name"@[0] != "city"@[0]);
    assert("slug"@[0] != "city"@[0]);
    assert("status"@[0] != "locked"@[0]);
    assert("status"@[0] != "entity"@[0]);
    assert("status"@[0] != "action"@[0]);
    assert("is_visible"@[0] != "account_id"@[0]);
    assert("is_visible"@[0] != "first_name"@[0]);
    assert("is_featured"@[0] != "uploaded_by"@[0]);
    assert("brand_id"@[0] != "filename"@[0]);
    assert("account_id"@[0] != "first_name"@[0]);
    assert("last_name"@[0] != "mime_type"@[0]);
    assert("last_name"@[0] != "is_public"@[0]);
    assert("last_name"@[0] != "entity_id"@[0]);
    assert("enabled"@[0] != "user_id"@[0]);
    assert("enabled"@[0] != "country"@[0]);
    assert("locked"@[0] != "entity"@[0]);
    assert("locked"@[0] != "action"@[0]);
    assert("mime_type"@[0] != "is_public"@[0]);
    assert("mime_type"@[0] != "entity_id"@[0]);
    assert("is_public"@[0] != "entity_id"@[0]);
    assert("entity"@[0] != "action"@[0]);
    assert("user_id"@[0] != "country"@[0]);
}

/// Without sort fields, products are listed newest first, organizations,
/// brands and customers by name, and the other resources in no set order.
pub proof fn law_default_orders(resource: Resource)
    ensures
        resource == Resource::Product ==> sort_order(resource, Seq::empty()) == seq![
            ("created_at"@, SortDirection::Descending),
        ],
        resource == Resource::Organization || resource == Resource::Brand || resource
            == Resource::Customer ==> sort_order(resource, Seq::empty()) == seq![
            ("name"@, SortDirection::Ascending),
        ],
        resource != Resource::Product && resource != Resource::Organization && resource
            != Resource::Brand && resource != Resource::Customer ==> sort_order(
            resource,
            Seq::empty(),
        ).len() == 0,
{
}

/// Plain listings of brands, customers, addresses and orders are always
/// newest first, of order items by id, and of accounts in no set order,
/// whatever sort fields are asked for; the other resources follow their
/// sort fields.
pub proof fn law_plain_listing_orders(resource: Resource, sorts: Seq<(Seq<char>, SortDirection)>)
    ensures
        resource == Resource::Brand || resource == Resource::Customer || resource == Resource::Address
            || resource == Resource::Order ==> listing_order(resource, sorts) == seq![
            ("created_at"@, SortDirection::Descending),
        ],
        resource == Resource::OrderItem ==> listing_order(resource, sorts) == seq![
            ("id"@, SortDirection::Ascending),
        ],
        resource == Resource::Account ==> listing_order(resource, sorts).len() == 0,
        resource == Resource::Product || resource == Resource::User || resource == Resource::Media
            || resource == Resource::AuditLog || resource == Resource::Organization ==> listing_order(
            resource,
            sorts,
        ) == sort_order(resource, sorts),
{
}

/// A search matches its text anywhere in a column: the pattern is the text
/// with `%` on both sides; an empty or absent text searches nothing.
pub proof fn law_search_pattern(text: Seq<char>)
    ensures
        text.len() > 0 ==> search_pattern_of(Some(text)) == Some("%"@ + text + "%"@),
        text.len() == 0 ==> search_pattern_of(Some(text)) is None,
        search_pattern_of(None) is None,
{
}

/// A search looks in the name and description of products, the name and
/// e-mail of organizations and customers, the name of brands, and nowhere
/// for other resources.
pub proof fn law_search_columns(resource: Resource)
    ensures
        resource == Resource::Product ==> search_columns_of(resource) == seq!["name"@, "description"@],
        resource == Resource::Organization || resource == Resource::Customer ==> search_columns_of(
            resource,
        ) == seq!["name"@, "email"@],
        resource == Resource::Brand ==> search_columns_of(resource) == seq!["name"@],
        resource != Resource::Product && resource != Resource::Organization && resource
            != Resource::Customer && resource != Resource::Brand ==> search_columns_of(resource).len()
            == 0,
{
}

/// The keys rows can be loaded by in batches: addresses and orders by
/// customer and account, audit logs by user, brands, customers,
/// organizations and users by account, media by uploader, order items by
/// order and product, products by brand and account, accounts by none.
pub proof fn law_batch_keys(resource: Resource, key: Seq<char>)
    ensures
        foreign_key_of(resource, key) <==> match resource {
            Resource::Address | Resource::Order => key == "customer_id"@ || key == "account_id"@,
            Resource::AuditLog => key == "user_id"@,
            Resource::Brand | Resource::Customer | Resource::Organization | Resource::User => key
                == "account_id"@,
            Resource::Media => key == "uploaded_by"@,
            Resource::OrderItem => key == "order_id"@ || key == "product_id"@,
            Resource::Product => key == "brand_id"@ || key == "account_id"@,
            Resource::Account => false,
        },
{
}

} // verus!
