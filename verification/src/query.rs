//! What a listing asks of the store: which records, and in which order.
//!
//! A query is an explicit value. It is rendered as a conjunction of clauses
//! over named fields, which is what the store is handed.

use crate::error::ApiError;
use crate::text::{owned, same_text};
use vstd::prelude::*;

verus! {

/// A field of a stored record.
#[derive(Debug, Clone, Copy, PartialEq, Eq, Structural)]
pub enum Field {
    Email,
    Category,
    Location,
    ProviderId,
    SellerId,
    CustomerId,
    ServiceId,
    ProductId,
    ItemId,
    ItemType,
    UserId,
    Title,
    Description,
    Downloads,
    CreatedAt,
    Price,
}

impl Field {
    /// The name under which the store keeps the field.
    pub open spec fn name_text(self) -> Seq<char> {
        match self {
            Field::Email => "email"@,
            Field::Category => "category"@,
            Field::Location => "location"@,
            Field::ProviderId => "provider_id"@,
            Field::SellerId => "seller_id"@,
            Field::CustomerId => "customer_id"@,
            Field::ServiceId => "service_id"@,
            Field::ProductId => "product_id"@,
            Field::ItemId => "item_id"@,
            Field::ItemType => "item_type"@,
            Field::UserId => "user_id"@,
            Field::Title => "title"@,
            Field::Description => "description"@,
            Field::Downloads => "downloads"@,
            Field::CreatedAt => "created_at"@,
            Field::Price => "price"@,
        }
    }

    /// The name under which the store keeps the field.
    pub fn name(&self) -> (name: &'static str)
        ensures
            name@ == self.name_text(),
    {
        match self {
            Field::Email => "email",
            Field::Category => "category",
            Field::Location => "location",
            Field::ProviderId => "provider_id",
            Field::SellerId => "seller_id",
            Field::CustomerId => "customer_id",
            Field::ServiceId => "service_id",
            Field::ProductId => "product_id",
            Field::ItemId => "item_id",
            Field::ItemType => "item_type",
            Field::UserId => "user_id",
            Field::Title => "title",
            Field::Description => "description",
            Field::Downloads => "downloads",
            Field::CreatedAt => "created_at",
            Field::Price => "price",
        }
    }
}

/// One condition on a record. A filter is a list of clauses that must all
/// hold.
#[derive(Debug, Clone, PartialEq, Eq)]
pub enum Clause {
    /// The field holds exactly `value`.
    Equals { field: Field, value: String },
    /// The field holds one of `values`.
    Within { field: Field, values: Vec<String> },
    /// The field matches `pattern`, a regular expression, whatever the case
    /// of the letters.
    Like { field: Field, pattern: String },
    /// At least one of `fields` matches `pattern`, whatever the case of the
    /// letters.
    AnyLike { fields: Vec<Field>, pattern: String },
}

/// The view of [`Clause`].
pub enum ClauseView {
    Equals { field: Field, value: Seq<char> },
    Within { field: Field, values: Seq<Seq<char>> },
    Like { field: Field, pattern: Seq<char> },
    AnyLike { fields: Seq<Field>, pattern: Seq<char> },
}

impl View for Clause {
    type V = ClauseView;

    open spec fn view(&self) -> ClauseView {
        match self {
            Clause::Equals { field, value } => ClauseView::Equals { field: *field, value: value@ },
            Clause::Within { field, values } => ClauseView::Within {
                field: *field,
                values: values.deep_view(),
            },
            Clause::Like { field, pattern } => ClauseView::Like {
                field: *field,
                pattern: pattern@,
            },
            Clause::AnyLike { fields, pattern } => ClauseView::AnyLike {
                fields: fields@,
                pattern: pattern@,
            },
        }
    }
}

impl DeepView for Clause {
    type V = ClauseView;

    open spec fn deep_view(&self) -> ClauseView {
        self@
    }
}

/// An order in which records are listed.
#[derive(Debug, Clone, Copy, PartialEq, Eq, Structural)]
pub struct Sort {
    pub field: Field,
    pub descending: bool,
}

/// The orders that a listing of products can ask for.
#[derive(Debug, Clone, Copy, PartialEq, Eq, Structural)]
pub enum SortKey {
    /// Most downloaded first.
    Relevance,
    /// Newest first.
    Recent,
    /// Cheapest first.
    PriceAsc,
    /// Dearest first.
    PriceDesc,
}

/// The sort key that a `sort` parameter names. `popular`, `recent`,
/// `price-low` and `price-high` name the four keys; a missing parameter and
/// any other word mean newest first.
pub open spec fn sort_key_of(word: Option<Seq<char>>) -> SortKey {
    match word {
        None => SortKey::Recent,
        Some(w) => if w == "popular"@ {
            SortKey::Relevance
        } else if w == "recent"@ {
            SortKey::Recent
        } else if w == "price-low"@ {
            SortKey::PriceAsc
        } else if w == "price-high"@ {
            SortKey::PriceDesc
        } else {
            SortKey::Recent
        },
    }
}

impl SortKey {
    /// The field and the direction that the key stands for.
    pub open spec fn order_spec(self) -> Sort {
        match self {
            SortKey::Relevance => Sort { field: Field::Downloads, descending: true },
            SortKey::Recent => Sort { field: Field::CreatedAt, descending: true },
            SortKey::PriceAsc => Sort { field: Field::Price, descending: false },
            SortKey::PriceDesc => Sort { field: Field::Price, descending: true },
        }
    }

    /// The field and the direction that the key stands for.
    pub fn order(&self) -> (sort: Sort)
        ensures
            sort == self.order_spec(),
    {
        match self {
            SortKey::Relevance => Sort { field: Field::Downloads, descending: true },
            SortKey::Recent => Sort { field: Field::CreatedAt, descending: true },
            SortKey::PriceAsc => Sort { field: Field::Price, descending: false },
            SortKey::PriceDesc => Sort { field: Field::Price, descending: true },
        }
    }

    /// Reads a `sort` parameter.
    pub fn parse(word: Option<&str>) -> (key: SortKey)
        ensures
            key == sort_key_of(
                match word {
                    Some(w) => Some(w@),
                    None => None,
                },
            ),
    {
        match word {
            None => SortKey::Recent,
            Some(w) => {
                if same_text(w, "popular") {
                    SortKey::Relevance
                } else if same_text(w, "recent") {
                    SortKey::Recent
                } else if same_text(w, "price-low") {
                    SortKey::PriceAsc
                } else if same_text(w, "price-high") {
                    SortKey::PriceDesc
                } else {
                    SortKey::Recent
                }
            },
        }
    }
}

/// The groups of products that the niche listing knows.
#[derive(Debug, Clone, Copy, PartialEq, Eq, Structural)]
pub enum NicheType {
    Resume,
    Business,
    Student,
    Creator,
    Developer,
}

/// The niche that `name` names, if it names one.
pub open spec fn niche_of(name: Seq<char>) -> Option<NicheType> {
    if name == "resume"@ {
        Some(NicheType::Resume)
    } else if name == "business"@ {
        Some(NicheType::Business)
    } else if name == "student"@ {
        Some(NicheType::Student)
    } else if name == "creator"@ {
        Some(NicheType::Creator)
    } else if name == "developer"@ {
        Some(NicheType::Developer)
    } else {
        None
    }
}

impl NicheType {
    /// The three product categories that make up the niche.
    pub open spec fn categories_spec(self) -> Seq<Seq<char>> {
        match self {
            NicheType::Resume => seq!["career"@, "resume"@, "cv"@],
            NicheType::Business => seq!["business"@, "invoice"@, "contract"@],
            NicheType::Student => seq!["education"@, "student"@, "notes"@],
            NicheType::Creator => seq!["creative"@, "design"@, "graphics"@],
            NicheType::Developer => seq!["development"@, "code"@, "api"@],
        }
    }

    /// Reads the name of a niche. An unknown name is a validation error.
    pub fn parse(name: &str) -> (res: Result<NicheType, ApiError>)
        ensures
            res == match niche_of(name@) {
                Some(niche) => Ok::<NicheType, ApiError>(niche),
                None => Err::<NicheType, ApiError>(ApiError::ValidationError),
            },
    {
        if same_text(name, "resume") {
            Ok(NicheType::Resume)
        } else if same_text(name, "business") {
            Ok(NicheType::Business)
        } else if same_text(name, "student") {
            Ok(NicheType::Student)
        } else if same_text(name, "creator") {
            Ok(NicheType::Creator)
        } else if same_text(name, "developer") {
            Ok(NicheType::Developer)
        } else {
            Err(ApiError::ValidationError)
        }
    }

    /// The three product categories that make up the niche.
    pub fn categories(&self) -> (list: Vec<String>)
        ensures
            list.deep_view() == self.categories_spec(),
    {
        let (a, b, c): (&str, &str, &str) = match self {
            NicheType::Resume => ("career", "resume", "cv"),
            NicheType::Business => ("business", "invoice", "contract"),
            NicheType::Student => ("education", "student", "notes"),
            NicheType::Creator => ("creative", "design", "graphics"),
            NicheType::Developer => ("development", "code", "api"),
        };
        let mut list: Vec<String> = Vec::new();
        list.push(owned(a));
        list.push(owned(b));
        list.push(owned(c));
        assert(list.deep_view() =~= seq![a@, b@, c@]);
        list
    }
}

/// Which services a listing asks for. Each part that is present narrows the
/// listing.
#[derive(Debug, Clone, PartialEq, Eq)]
pub struct ServiceQuery {
    /// The category, matched exactly.
    pub category: Option<String>,
    /// A pattern for the location, whatever the case of the letters.
    pub location: Option<String>,
    /// A pattern for the title or the description, whatever the case of the
    /// letters.
    pub search: Option<String>,
}

/// The view of [`ServiceQuery`].
pub struct ServiceQueryView {
    pub category: Option<Seq<char>>,
    pub location: Option<Seq<char>>,
    pub search: Option<Seq<char>>,
}

impl View for ServiceQuery {
    type V = ServiceQueryView;

    open spec fn view(&self) -> ServiceQueryView {
        ServiceQueryView {
            category: self.category.deep_view(),
            location: self.location.deep_view(),
            search: self.search.deep_view(),
        }
    }
}

/// The clause that keeps the records whose category is `category`.
pub open spec fn category_clause(category: Seq<char>) -> ClauseView {
    ClauseView::Equals { field: Field::Category, value: category }
}

/// The clause that keeps the records whose location matches `pattern`.
pub open spec fn location_clause(pattern: Seq<char>) -> ClauseView {
    ClauseView::Like { field: Field::Location, pattern }
}

/// The clause that keeps the records whose title or description matches
/// `pattern`.
pub open spec fn search_clause(pattern: Seq<char>) -> ClauseView {
    ClauseView::AnyLike { fields: seq![Field::Title, Field::Description], pattern }
}

/// No clause when `part` is absent, and the one that `clause` makes of it when
/// it is present.
pub open spec fn optional_clause(
    part: Option<Seq<char>>,
    clause: spec_fn(Seq<char>) -> ClauseView,
) -> Seq<ClauseView> {
    match part {
        Some(text) => seq![clause(text)],
        None => Seq::empty(),
    }
}

impl ServiceQueryView {
    /// The filter of the query: the category, then the location, then the
    /// search, each only if present.
    pub open spec fn clauses(self) -> Seq<ClauseView> {
        optional_clause(self.category, |c: Seq<char>| category_clause(c)) + optional_clause(
            self.location,
            |l: Seq<char>| location_clause(l),
        ) + optional_clause(self.search, |s: Seq<char>| search_clause(s))
    }
}

/// The clause that searches title and description for `pattern`.
fn make_search_clause(pattern: &String) -> (clause: Clause)
    ensures
        clause@ == search_clause(pattern@),
{
    let mut fields: Vec<Field> = Vec::new();
    fields.push(Field::Title);
    fields.push(Field::Description);
    assert(fields@ =~= seq![Field::Title, Field::Description]);
    Clause::AnyLike { fields, pattern: pattern.clone() }
}

/// Appends `clause` to `filter`.
pub(crate) fn push_clause(filter: &mut Vec<Clause>, clause: Clause)
    ensures
        final(filter).deep_view() == old(filter).deep_view().push(clause@),
{
    filter.push(clause);
    assert(filter.deep_view() =~= old(filter).deep_view().push(clause@));
}

impl ServiceQuery {
    /// The filter of the query.
    pub fn clauses(&self) -> (filter: Vec<Clause>)
        ensures
            filter.deep_view() == self@.clauses(),
    {
        let mut filter: Vec<Clause> = Vec::new();
        assert(filter.deep_view() =~= Seq::<ClauseView>::empty());
        if let Some(category) = &self.category {
            push_clause(
                &mut filter,
                Clause::Equals { field: Field::Category, value: category.clone() },
            );
        }
        if let Some(location) = &self.location {
            push_clause(
                &mut filter,
                Clause::Like { field: Field::Location, pattern: location.clone() },
            );
        }
        if let Some(search) = &self.search {
            let clause = make_search_clause(search);
            push_clause(&mut filter, clause);
        }
        assert(filter.deep_view() =~= self@.clauses());
        filter
    }
}

/// Which categories of products a listing asks for.
#[derive(Debug, Clone, PartialEq, Eq)]
pub enum CategoryFilter {
    /// Every category.
    Any,
    /// One category, matched exactly.
    Exactly(String),
    /// Any category of a list.
    OneOf(Vec<String>),
}

/// The view of [`CategoryFilter`].
pub enum CategoryFilterView {
    Any,
    Exactly(Seq<char>),
    OneOf(Seq<Seq<char>>),
}

impl View for CategoryFilter {
    type V = CategoryFilterView;

    open spec fn view(&self) -> CategoryFilterView {
        match self {
            CategoryFilter::Any => CategoryFilterView::Any,
            CategoryFilter::Exactly(category) => CategoryFilterView::Exactly(category@),
            CategoryFilter::OneOf(list) => CategoryFilterView::OneOf(list.deep_view()),
        }
    }
}

impl CategoryFilterView {
    /// The clauses that the choice of categories contributes.
    pub open spec fn clauses(self) -> Seq<ClauseView> {
        match self {
            CategoryFilterView::Any => Seq::empty(),
            CategoryFilterView::Exactly(category) => seq![category_clause(category)],
            CategoryFilterView::OneOf(list) => seq![
                ClauseView::Within { field: Field::Category, values: list },
            ],
        }
    }
}

/// A copy of a list of texts.
pub fn clone_texts(list: &Vec<String>) -> (copy: Vec<String>)
    ensures
        copy.deep_view() == list.deep_view(),
{
    let mut copy: Vec<String> = Vec::new();
    let mut i: usize = 0;
    while i < list.len()
        invariant
            i <= list.len(),
            copy.len() == i,
            forall|j: int| 0 <= j < i ==> copy[j]@ == list[j]@,
        decreases list.len() - i,
    {
        copy.push(list[i].clone());
        i = i + 1;
    }
    assert(copy.deep_view() =~= list.deep_view());
    copy
}

/// Which products a listing asks for, and in which order.
#[derive(Debug, Clone, PartialEq, Eq)]
pub struct ProductQuery {
    pub categories: CategoryFilter,
    /// A pattern for the title or the description, whatever the case of the
    /// letters.
    pub search: Option<String>,
    /// The order of the listing; the store's own order when absent.
    pub sort: Option<SortKey>,
}

/// The view of [`ProductQuery`].
pub struct ProductQueryView {
    pub categories: CategoryFilterView,
    pub search: Option<Seq<char>>,
    pub sort: Option<SortKey>,
}

impl View for ProductQuery {
    type V = ProductQueryView;

    open spec fn view(&self) -> ProductQueryView {
        ProductQueryView {
            categories: self.categories@,
            search: self.search.deep_view(),
            sort: self.sort,
        }
    }
}

impl ProductQueryView {
    /// The filter of the query: the categories, then the search.
    pub open spec fn clauses(self) -> Seq<ClauseView> {
        self.categories.clauses() + optional_clause(self.search, |s: Seq<char>| search_clause(s))
    }

    /// The order of the listing, if the query asks for one.
    pub open spec fn order(self) -> Option<Sort> {
        match self.sort {
            Some(key) => Some(key.order_spec()),
            None => None,
        }
    }
}

impl ProductQuery {
    /// The filter of the query.
    pub fn clauses(&self) -> (filter: Vec<Clause>)
        ensures
            filter.deep_view() == self@.clauses(),
    {
        let mut filter: Vec<Clause> = Vec::new();
        assert(filter.deep_view() =~= Seq::<ClauseView>::empty());
        match &self.categories {
            CategoryFilter::Any => {},
            CategoryFilter::Exactly(category) => {
                push_clause(
                    &mut filter,
                    Clause::Equals { field: Field::Category, value: category.clone() },
                );
            },
            CategoryFilter::OneOf(list) => {
                let values = clone_texts(list);
                push_clause(&mut filter, Clause::Within { field: Field::Category, values });
            },
        }
        if let Some(search) = &self.search {
            let clause = make_search_clause(search);
            push_clause(&mut filter, clause);
        }
        assert(filter.deep_view() =~= self@.clauses());
        filter
    }

    /// The order of the listing, if the query asks for one.
    pub fn order(&self) -> (sort: Option<Sort>)
        ensures
            sort == self@.order(),
    {
        match &self.sort {
            Some(key) => Some(key.order()),
            None => None,
        }
    }
}

} // verus!
