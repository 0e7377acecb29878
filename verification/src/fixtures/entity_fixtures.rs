use vstd::prelude::*;
use crate::fixtures::app_fixtures::{contact_views, min_nat, organization_views};
use crate::fixtures::loader::Fixture;
use crate::fixtures::seeds::{
    organization_seed, ContactSeed, ContactSeedView, OrganizationSeed, OrganizationSeedView,
};
use crate::text::{dec_nat, lowercase, push_str, push_u64, remove_spaces, str_eq, string_of, to_lowercase, without_spaces};

verus! {

/// The organizations the entity fixture can create: name, e-mail, phone.
pub open spec fn entity_organization_table() -> Seq<(Seq<char>, Seq<char>, Seq<char>)> {
    seq![
        ("Tech Solutions Ltd"@, "tech@solutions.com"@, "+1-555-0100"@),
        ("Global Consulting"@, "info@globalconsult.com"@, "+1-555-0200"@),
        ("Innovation Partners"@, "hello@innovation.com"@, "+1-555-0300"@),
        ("Enterprise Systems"@, "contact@enterprise.com"@, "+1-555-0400"@),
        ("Digital Dynamics"@, "info@digitaldyn.com"@, "+1-555-0500"@),
        ("Strategic Ventures"@, "contact@strategic.com"@, "+1-555-0600"@),
        ("Modern Solutions"@, "info@modern.com"@, "+1-555-0700"@),
        ("Advanced Technologies"@, "hello@advanced.tech"@, "+1-555-0800"@),
    ]
}

/// The first `count` organizations of the table, eight at most.
pub open spec fn entity_organization_plan(account_id: i32, count: nat) -> Seq<OrganizationSeedView> {
    Seq::new(
        min_nat(count, 8),
        |i: int|
            OrganizationSeedView {
                name: Some(entity_organization_table()[i].0),
                email: Some(entity_organization_table()[i].1),
                phone: Some(entity_organization_table()[i].2),
                account_id,
            },
    )
}

/// The people added as contacts to each of the first organizations.
pub open spec fn organization_people() -> Seq<(Seq<char>, Seq<char>)> {
    seq![("John"@, "Smith"@), ("Sarah"@, "Johnson"@)]
}

/// The `j`-th contact of the `i`-th organization, named `org_name` and
/// stored under `org_id`: its e-mail is `first.last@orgname`, all lowercase
/// and without spaces, its phone `+1-555-` and the number
/// `1000 + 10 i + j`.
pub open spec fn organization_contact(account_id: i32, org_name: Seq<char>, org_id: i32, i: nat, j: int) -> ContactSeedView {
    let p = organization_people()[j];
    ContactSeedView {
        first_name: Some(p.0),
        last_name: Some(p.1),
        email: Some(lowercase(p.0) + "."@ + lowercase(p.1) + "@"@ + without_spaces(lowercase(org_name))),
        phone: Some("+1-555-"@ + dec_nat(1000 + 10 * i + j as nat)),
        account_id,
        organization_id: Some(org_id),
    }
}

/// The contacts of the `i`-th organization, stored under `org_id`: two for
/// each of the first three organizations, none for the others.
pub open spec fn organization_contacts(account_id: i32, i: nat, org_id: i32) -> Seq<ContactSeedView> {
    if i < 3 {
        let name = entity_organization_table()[i as int].0;
        seq![
            organization_contact(account_id, name, org_id, i, 0),
            organization_contact(account_id, name, org_id, i, 1),
        ]
    } else {
        Seq::empty()
    }
}

/// A brand to create.
#[derive(Debug, Clone)]
pub struct BrandSeed {
    pub name: String,
    pub description: String,
    pub account_id: i32,
}

/// A product category to create.
#[derive(Debug, Clone)]
pub struct CategorySeed {
    pub name: String,
    pub description: String,
    pub account_id: i32,
}

/// A product to create; the price is in cents.
#[derive(Debug, Clone)]
pub struct ProductSeed {
    pub name: String,
    pub price: i32,
    pub description: String,
    pub account_id: i32,
    pub brand_id: Option<i32>,
}

/// A customer to create.
#[derive(Debug, Clone)]
pub struct CustomerSeed {
    pub name: String,
    pub email: String,
    pub phone: String,
    pub account_id: i32,
}

/// An address of a customer to create.
#[derive(Debug, Clone)]
pub struct AddressSeed {
    pub address_type: String,
    pub street: String,
    pub city: String,
    pub region: String,
    pub country: String,
    pub postal_code: String,
    pub account_id: i32,
    pub customer_id: i32,
}

/// A named record: name, description, account.
pub struct NamedSeedView {
    pub name: Seq<char>,
    pub description: Seq<char>,
    pub account_id: i32,
}

impl View for BrandSeed {
    type V = NamedSeedView;

    open spec fn view(&self) -> NamedSeedView {
        NamedSeedView { name: self.name@, description: self.description@, account_id: self.account_id }
    }
}

impl View for CategorySeed {
    type V = NamedSeedView;

    open spec fn view(&self) -> NamedSeedView {
        NamedSeedView { name: self.name@, description: self.description@, account_id: self.account_id }
    }
}

/// The content of a product seed.
pub struct ProductSeedView {
    pub name: Seq<char>,
    pub price: i32,
    pub description: Seq<char>,
    pub account_id: i32,
    pub brand_id: Option<i32>,
}

impl View for ProductSeed {
    type V = ProductSeedView;

    open spec fn view(&self) -> ProductSeedView {
        ProductSeedView {
            name: self.name@,
            price: self.price,
            description: self.description@,
            account_id: self.account_id,
            brand_id: self.brand_id,
        }
    }
}

/// The content of a customer seed.
pub struct CustomerSeedView {
    pub name: Seq<char>,
    pub email: Seq<char>,
    pub phone: Seq<char>,
    pub account_id: i32,
}

impl View for CustomerSeed {
    type V = CustomerSeedView;

    open spec fn view(&self) -> CustomerSeedView {
        CustomerSeedView { name: self.name@, email: self.email@, phone: self.phone@, account_id: self.account_id }
    }
}

/// The content of an address seed.
pub struct AddressSeedView {
    pub address_type: Seq<char>,
    pub street: Seq<char>,
    pub city: Seq<char>,
    pub region: Seq<char>,
    pub country: Seq<char>,
    pub postal_code: Seq<char>,
    pub account_id: i32,
    pub customer_id: i32,
}

impl View for AddressSeed {
    type V = AddressSeedView;

    open spec fn view(&self) -> AddressSeedView {
        AddressSeedView {
            address_type: self.address_type@,
            street: self.street@,
            city: self.city@,
            region: self.region@,
            country: self.country@,
            postal_code: self.postal_code@,
            account_id: self.account_id,
            customer_id: self.customer_id,
        }
    }
}

/// The brands of the catalog.
pub open spec fn brand_names() -> Seq<Seq<char>> {
    seq!["Premium Brand"@, "EcoLine"@, "TechPro"@, "ValueMax"@, "Elite Series"@]
}

/// The categories of the catalog.
pub open spec fn category_names() -> Seq<Seq<char>> {
    seq!["Electronics"@, "Office Supplies"@, "Furniture"@, "Software"@, "Accessories"@]
}

/// The brands to create, each with its tagline.
pub open spec fn brand_plan_view(account_id: i32) -> Seq<NamedSeedView> {
    Seq::new(
        5,
        |i: int|
            NamedSeedView {
                name: brand_names()[i],
                description: brand_names()[i] + " - Quality products for discerning customers"@,
                account_id,
            },
    )
}

/// The categories to create, each described by its lowercase name.
pub open spec fn category_plan_view(account_id: i32) -> Seq<NamedSeedView> {
    Seq::new(
        5,
        |i: int|
            NamedSeedView {
                name: category_names()[i],
                description: "High-quality "@ + lowercase(category_names()[i])
                    + " for business and personal use"@,
                account_id,
            },
    )
}

/// The product templates: name, category, brand, price in cents.
pub open spec fn product_table() -> Seq<(Seq<char>, Seq<char>, Seq<char>, i32)> {
    seq![
        ("Wireless Mouse"@, "Electronics"@, "TechPro"@, 2999i32),
        ("Mechanical Keyboard"@, "Electronics"@, "Premium Brand"@, 14999i32),
        ("USB-C Hub"@, "Accessories"@, "TechPro"@, 4999i32),
        ("Office Chair"@, "Furniture"@, "Premium Brand"@, 39999i32),
        ("Standing Desk"@, "Furniture"@, "Elite Series"@, 69999i32),
        ("Notebook Set"@, "Office Supplies"@, "ValueMax"@, 1299i32),
        ("Pen Collection"@, "Office Supplies"@, "Premium Brand"@, 2499i32),
        ("Monitor Stand"@, "Accessories"@, "TechPro"@, 8999i32),
        ("Desk Lamp"@, "Office Supplies"@, "EcoLine"@, 3999i32),
        ("Cable Organizer"@, "Accessories"@, "ValueMax"@, 1599i32),
        ("Wireless Charger"@, "Electronics"@, "TechPro"@, 3499i32),
        ("Laptop Stand"@, "Accessories"@, "Elite Series"@, 7999i32),
        ("Ergonomic Mouse Pad"@, "Accessories"@, "EcoLine"@, 1999i32),
        ("Blue Light Glasses"@, "Accessories"@, "Premium Brand"@, 5999i32),
        ("Portable SSD"@, "Electronics"@, "TechPro"@, 12999i32),
        ("Webcam HD"@, "Electronics"@, "Premium Brand"@, 9999i32),
        ("Headphone Stand"@, "Accessories"@, "Elite Series"@, 2999i32),
        ("Desk Organizer"@, "Office Supplies"@, "ValueMax"@, 2299i32),
        ("Plant Pot"@, "Office Supplies"@, "EcoLine"@, 1499i32),
        ("Whiteboard"@, "Office Supplies"@, "Premium Brand"@, 8999i32),
    ]
}

/// The id of the first of `brands` (id and name) named `name`.
pub open spec fn first_brand_id(brands: Seq<(i32, Seq<char>)>, name: Seq<char>) -> Option<i32>
    decreases brands.len(),
{
    if brands.len() == 0 {
        None
    } else if brands[0].1 == name {
        Some(brands[0].0)
    } else {
        first_brand_id(brands.drop_first(), name)
    }
}

/// The first `count` products of the table, twenty at most, each tied to the
/// created brand of its name, if there is one.
pub open spec fn product_plan_view(account_id: i32, brands: Seq<(i32, Seq<char>)>, count: nat) -> Seq<
    ProductSeedView,
> {
    Seq::new(
        min_nat(count, 20),
        |i: int|
            ProductSeedView {
                name: product_table()[i].0,
                price: product_table()[i].3,
                description: "Premium "@ + product_table()[i].0 + " - perfect for your office needs"@,
                account_id,
                brand_id: first_brand_id(brands, product_table()[i].2),
            },
    )
}

/// The customers the entity fixture can create: name, e-mail, phone.
pub open spec fn customer_table() -> Seq<(Seq<char>, Seq<char>, Seq<char>)> {
    seq![
        ("Emma Thompson"@, "emma.thompson@email.com"@, "+1-555-2001"@),
        ("Oliver Martinez"@, "oliver.martinez@email.com"@, "+1-555-2002"@),
        ("Sophia Anderson"@, "sophia.anderson@email.com"@, "+1-555-2003"@),
        ("Liam Garcia"@, "liam.garcia@email.com"@, "+1-555-2004"@),
        ("Ava Rodriguez"@, "ava.rodriguez@email.com"@, "+1-555-2005"@),
        ("Noah Wilson"@, "noah.wilson@email.com"@, "+1-555-2006"@),
        ("Isabella Taylor"@, "isabella.taylor@email.com"@, "+1-555-2007"@),
        ("Mason Brown"@, "mason.brown@email.com"@, "+1-555-2008"@),
        ("Mia Lee"@, "mia.lee@email.com"@, "+1-555-2009"@),
        ("Ethan White"@, "ethan.white@email.com"@, "+1-555-2010"@),
    ]
}

/// The first `count` customers of the table, ten at most.
pub open spec fn customer_plan_view(account_id: i32, count: nat) -> Seq<CustomerSeedView> {
    Seq::new(
        min_nat(count, 10),
        |i: int|
            CustomerSeedView {
                name: customer_table()[i].0,
                email: customer_table()[i].1,
                phone: customer_table()[i].2,
                account_id,
            },
    )
}

/// An address in Springfield, Illinois.
pub open spec fn springfield_address(
    account_id: i32,
    customer_id: i32,
    address_type: Seq<char>,
    street: Seq<char>,
    postal_code: Seq<char>,
) -> AddressSeedView {
    AddressSeedView {
        address_type,
        street,
        city: "Springfield"@,
        region: "IL"@,
        country: "USA"@,
        postal_code,
        account_id,
        customer_id,
    }
}

/// The addresses of the `i`-th customer, stored under `customer_id`: a
/// billing and a shipping address for each of the first three customers,
/// none for the others.
pub open spec fn customer_addresses(account_id: i32, i: nat, customer_id: i32) -> Seq<AddressSeedView> {
    if i < 3 {
        seq![
            springfield_address(
                account_id,
                customer_id,
                "billing"@,
                dec_nat(100 + 10 * i) + " Main St"@,
                "62701"@,
            ),
            springfield_address(
                account_id,
                customer_id,
                "shipping"@,
                dec_nat(200 + 10 * i) + " Oak Ave"@,
                "62702"@,
            ),
        ]
    } else {
        Seq::empty()
    }
}

fn organization_contact_seed(account_id: i32, org_name: &str, org_id: i32, i: usize, j: usize, first: &str, last: &str) -> (s: ContactSeed)
    requires
        i < 3,
        j < 2,
        (first@, last@) == organization_people()[j as int],
    ensures
        s@ == organization_contact(account_id, org_name@, org_id, i as nat, j as int),
{
    let mut email = to_lowercase(first);
    push_str(&mut email, ".");
    let l = to_lowercase(last);
    push_str(&mut email, l.as_str());
    push_str(&mut email, "@");
    let o = to_lowercase(org_name);
    let o = remove_spaces(o.as_str());
    push_str(&mut email, o.as_str());
    let mut phone = string_of("+1-555-");
    push_u64(&mut phone, 1000 + 10 * (i as u64) + (j as u64));
    ContactSeed {
        first_name: Some(string_of(first)),
        last_name: Some(string_of(last)),
        email: Some(email),
        phone: Some(phone),
        account_id,
        organization_id: Some(org_id),
    }
}

fn address_seed(account_id: i32, customer_id: i32, address_type: &str, number: u64, street: &str, postal_code: &str) -> (s:
    AddressSeed)
    ensures
        s@ == springfield_address(
            account_id,
            customer_id,
            address_type@,
            dec_nat(number as nat) + street@,
            postal_code@,
        ),
{
    let mut st = String::new();
    push_u64(&mut st, number);
    push_str(&mut st, street);
    AddressSeed {
        address_type: string_of(address_type),
        street: st,
        city: string_of("Springfield"),
        region: string_of("IL"),
        country: string_of("USA"),
        postal_code: string_of(postal_code),
        account_id,
        customer_id,
    }
}

/// The id of the first of `brands` named `name`.
pub fn find_brand_id(brands: &[(i32, String)], name: &str) -> (r: Option<i32>)
    ensures
        r == first_brand_id(brands@.map_values(|b: (i32, String)| (b.0, b.1@)), name@),
{
    let ghost all = brands@.map_values(|b: (i32, String)| (b.0, b.1@));
    assert(all.subrange(0, all.len() as int) =~= all);
    let mut k: usize = 0;
    while k < brands.len()
        invariant
            k <= brands@.len(),
            all == brands@.map_values(|b: (i32, String)| (b.0, b.1@)),
            first_brand_id(all, name@) == first_brand_id(all.subrange(k as int, all.len() as int), name@),
        decreases brands@.len() - k,
    {
        let ghost rest = all.subrange(k as int, all.len() as int);
        assert(rest[0] == all[k as int]);
        if str_eq(brands[k].1.as_str(), name) {
            return Some(brands[k].0);
        }
        assert(rest.drop_first() =~= all.subrange(k + 1, all.len() as int));
        k = k + 1;
    }
    None
}

/// Seeds organizations with contacts, a product catalog, and customers with
/// addresses.
pub struct EntityFixtures {
    pub load_organizations: bool,
    pub load_products: bool,
    pub load_customers: bool,
    pub organization_count: usize,
    pub product_count: usize,
    pub customer_count: usize,
}

/// The views of a list of brand or category seeds.
pub open spec fn brand_views(v: Seq<BrandSeed>) -> Seq<NamedSeedView> {
    v.map_values(|s: BrandSeed| s@)
}

/// The views of a list of category seeds.
pub open spec fn category_views(v: Seq<CategorySeed>) -> Seq<NamedSeedView> {
    v.map_values(|s: CategorySeed| s@)
}

/// The views of a list of product seeds.
pub open spec fn product_views(v: Seq<ProductSeed>) -> Seq<ProductSeedView> {
    v.map_values(|s: ProductSeed| s@)
}

/// The views of a list of customer seeds.
pub open spec fn customer_views(v: Seq<CustomerSeed>) -> Seq<CustomerSeedView> {
    v.map_values(|s: CustomerSeed| s@)
}

/// The views of a list of address seeds.
pub open spec fn address_views(v: Seq<AddressSeed>) -> Seq<AddressSeedView> {
    v.map_values(|s: AddressSeed| s@)
}

impl EntityFixtures {
    /// All three kinds: 5 organizations, 20 products, 10 customers.
    pub fn new() -> (f: Self)
        ensures
            f == EntityFixtures::new_spec(),
    {
        EntityFixtures {
            load_organizations: true,
            load_products: true,
            load_customers: true,
            organization_count: 5,
            product_count: 20,
            customer_count: 10,
        }
    }

    /// What `new` makes.
    pub open spec fn new_spec() -> EntityFixtures {
        EntityFixtures {
            load_organizations: true,
            load_products: true,
            load_customers: true,
            organization_count: 5,
            product_count: 20,
            customer_count: 10,
        }
    }

    /// The same as `new`.
    pub fn all() -> (f: Self)
        ensures
            f == EntityFixtures::new_spec(),
    {
        Self::new()
    }

    /// Organizations alone, ten asked for.
    pub fn organizations_only() -> (f: Self)
        ensures
            f == (EntityFixtures {
                load_organizations: true,
                load_products: false,
                load_customers: false,
                organization_count: 10,
                product_count: 0,
                customer_count: 0,
            }),
    {
        EntityFixtures {
            load_organizations: true,
            load_products: false,
            load_customers: false,
            organization_count: 10,
            product_count: 0,
            customer_count: 0,
        }
    }

    /// Products alone, fifty asked for.
    pub fn products_only() -> (f: Self)
        ensures
            f == (EntityFixtures {
                load_organizations: false,
                load_products: true,
                load_customers: false,
                organization_count: 0,
                product_count: 50,
                customer_count: 0,
            }),
    {
        EntityFixtures {
            load_organizations: false,
            load_products: true,
            load_customers: false,
            organization_count: 0,
            product_count: 50,
            customer_count: 0,
        }
    }

    /// With the given counts of organizations, products and customers.
    pub fn with_counts(self, orgs: usize, products: usize, customers: usize) -> (f: Self)
        ensures
            f == (EntityFixtures {
                organization_count: orgs,
                product_count: products,
                customer_count: customers,
                ..self
            }),
    {
        EntityFixtures { organization_count: orgs, product_count: products, customer_count: customers, ..self }
    }

    /// The organizations to create in the account `account_id`, in order.
    pub fn organization_plan(&self, account_id: i32) -> (v: Vec<OrganizationSeed>)
        ensures
            organization_views(v@) == entity_organization_plan(account_id, self.organization_count as nat),
    {
        let table: [(&str, &str, &str); 8] = [
            ("Tech Solutions Ltd", "tech@solutions.com", "+1-555-0100"),
            ("Global Consulting", "info@globalconsult.com", "+1-555-0200"),
            ("Innovation Partners", "hello@innovation.com", "+1-555-0300"),
            ("Enterprise Systems", "contact@enterprise.com", "+1-555-0400"),
            ("Digital Dynamics", "info@digitaldyn.com", "+1-555-0500"),
            ("Strategic Ventures", "contact@strategic.com", "+1-555-0600"),
            ("Modern Solutions", "info@modern.com", "+1-555-0700"),
            ("Advanced Technologies", "hello@advanced.tech", "+1-555-0800"),
        ];
        assert(table@.map_values(|t: (&str, &str, &str)| (t.0@, t.1@, t.2@)) =~= entity_organization_table());
        let n: usize = if self.organization_count < 8 {
            self.organization_count
        } else {
            8
        };
        let ghost want = entity_organization_plan(account_id, self.organization_count as nat);
        let mut v: Vec<OrganizationSeed> = Vec::new();
        let mut i: usize = 0;
        while i < n
            invariant
                i <= n <= 8,
                n == min_nat(self.organization_count as nat, 8),
                table@.map_values(|t: (&str, &str, &str)| (t.0@, t.1@, t.2@)) == entity_organization_table(),
                want == entity_organization_plan(account_id, self.organization_count as nat),
                organization_views(v@) == want.take(i as int),
            decreases n - i,
        {
            let ghost prev = v@;
            let (name, email, phone) = table[i];
            assert(table@.map_values(|t: (&str, &str, &str)| (t.0@, t.1@, t.2@))[i as int]
                == entity_organization_table()[i as int]);
            let x = organization_seed(account_id, Some(name), Some(email), Some(phone));
            v.push(x);
            assert(organization_views(v@) =~= organization_views(prev).push(x@));
            assert(want.take(i + 1) =~= want.take(i as int).push(want[i as int]));
            i = i + 1;
        }
        assert(want.take(n as int) =~= want);
        v
    }

    /// The contacts to create for the `i`-th organization of the plan,
    /// stored under `org_id`.
    pub fn organization_contacts(account_id: i32, i: usize, org_id: i32) -> (v: Vec<ContactSeed>)
        ensures
            contact_views(v@) == organization_contacts(account_id, i as nat, org_id),
    {
        let mut v: Vec<ContactSeed> = Vec::new();
        if i < 3 {
            let names: [&str; 3] = ["Tech Solutions Ltd", "Global Consulting", "Innovation Partners"];
            let name = names[i];
            assert(name@ == entity_organization_table()[i as int].0);
            let a = organization_contact_seed(account_id, name, org_id, i, 0, "John", "Smith");
            let b = organization_contact_seed(account_id, name, org_id, i, 1, "Sarah", "Johnson");
            v.push(a);
            v.push(b);
            assert(contact_views(v@) =~= organization_contacts(account_id, i as nat, org_id));
        } else {
            assert(contact_views(v@) =~= organization_contacts(account_id, i as nat, org_id));
        }
        v
    }

    /// The brands to create in the account `account_id`, in order.
    pub fn brand_plan(account_id: i32) -> (v: Vec<BrandSeed>)
        ensures
            brand_views(v@) == brand_plan_view(account_id),
    {
        let names: [&str; 5] = ["Premium Brand", "EcoLine", "TechPro", "ValueMax", "Elite Series"];
        assert(names@.map_values(|s: &str| s@) =~= brand_names());
        let ghost want = brand_plan_view(account_id);
        let mut v: Vec<BrandSeed> = Vec::new();
        let mut i: usize = 0;
        while i < 5
            invariant
                i <= 5,
                names@.map_values(|s: &str| s@) == brand_names(),
                want == brand_plan_view(account_id),
                brand_views(v@) == want.take(i as int),
            decreases 5 - i,
        {
            let ghost prev = v@;
            let name = names[i];
            assert(names@.map_values(|s: &str| s@)[i as int] == brand_names()[i as int]);
            let mut description = string_of(name);
            push_str(&mut description, " - Quality products for discerning customers");
            let x = BrandSeed { name: string_of(name), description, account_id };
            v.push(x);
            assert(brand_views(v@) =~= brand_views(prev).push(x@));
            assert(want.take(i + 1) =~= want.take(i as int).push(want[i as int]));
            i = i + 1;
        }
        assert(want.take(5) =~= want);
        v
    }

    /// The categories to create in the account `account_id`, in order.
    pub fn category_plan(account_id: i32) -> (v: Vec<CategorySeed>)
        ensures
            category_views(v@) == category_plan_view(account_id),
    {
        let names: [&str; 5] = ["Electronics", "Office Supplies", "Furniture", "Software", "Accessories"];
        assert(names@.map_values(|s: &str| s@) =~= category_names());
        let ghost want = category_plan_view(account_id);
        let mut v: Vec<CategorySeed> = Vec::new();
        let mut i: usize = 0;
        while i < 5
            invariant
                i <= 5,
                names@.map_values(|s: &str| s@) == category_names(),
                want == category_plan_view(account_id),
                category_views(v@) == want.take(i as int),
            decreases 5 - i,
        {
            let ghost prev = v@;
            let name = names[i];
            assert(names@.map_values(|s: &str| s@)[i as int] == category_names()[i as int]);
            let mut description = string_of("High-quality ");
            let lower = to_lowercase(name);
            push_str(&mut description, lower.as_str());
            push_str(&mut description, " for business and personal use");
            let x = CategorySeed { name: string_of(name), description, account_id };
            v.push(x);
            assert(category_views(v@) =~= category_views(prev).push(x@));
            assert(want.take(i + 1) =~= want.take(i as int).push(want[i as int]));
            i = i + 1;
        }
        assert(want.take(5) =~= want);
        v
    }

    /// The products to create in the account `account_id`, given the brands
    /// created before them (id and name), in order.
    pub fn product_plan(&self, account_id: i32, brands: &[(i32, String)]) -> (v: Vec<ProductSeed>)
        ensures
            product_views(v@) == product_plan_view(
                account_id,
                brands@.map_values(|b: (i32, String)| (b.0, b.1@)),
                self.product_count as nat,
            ),
    {
        let table: [(&str, &str, &str, i32); 20] = [
            ("Wireless Mouse", "Electronics", "TechPro", 2999),
            ("Mechanical Keyboard", "Electronics", "Premium Brand", 14999),
            ("USB-C Hub", "Accessories", "TechPro", 4999),
            ("Office Chair", "Furniture", "Premium Brand", 39999),
            ("Standing Desk", "Furniture", "Elite Series", 69999),
            ("Notebook Set", "Office Supplies", "ValueMax", 1299),
            ("Pen Collection", "Office Supplies", "Premium Brand", 2499),
            ("Monitor Stand", "Accessories", "TechPro", 8999),
            ("Desk Lamp", "Office Supplies", "EcoLine", 3999),
            ("Cable Organizer", "Accessories", "ValueMax", 1599),
            ("Wireless Charger", "Electronics", "TechPro", 3499),
            ("Laptop Stand", "Accessories", "Elite Series", 7999),
            ("Ergonomic Mouse Pad", "Accessories", "EcoLine", 1999),
            ("Blue Light Glasses", "Accessories", "Premium Brand", 5999),
            ("Portable SSD", "Electronics", "TechPro", 12999),
            ("Webcam HD", "Electronics", "Premium Brand", 9999),
            ("Headphone Stand", "Accessories", "Elite Series", 2999),
            ("Desk Organizer", "Office Supplies", "ValueMax", 2299),
            ("Plant Pot", "Office Supplies", "EcoLine", 1499),
            ("Whiteboard", "Office Supplies", "Premium Brand", 8999),
        ];
        assert(table@.map_values(|t: (&str, &str, &str, i32)| (t.0@, t.1@, t.2@, t.3)) =~= product_table());
        let ghost brand_refs = brands@.map_values(|b: (i32, String)| (b.0, b.1@));
        let n: usize = if self.product_count < 20 {
            self.product_count
        } else {
            20
        };
        let ghost want = product_plan_view(account_id, brand_refs, self.product_count as nat);
        let mut v: Vec<ProductSeed> = Vec::new();
        let mut i: usize = 0;
        while i < n
            invariant
                i <= n <= 20,
                n == min_nat(self.product_count as nat, 20),
                table@.map_values(|t: (&str, &str, &str, i32)| (t.0@, t.1@, t.2@, t.3)) == product_table(),
                brand_refs == brands@.map_values(|b: (i32, String)| (b.0, b.1@)),
                want == product_plan_view(account_id, brand_refs, self.product_count as nat),
                product_views(v@) == want.take(i as int),
            decreases n - i,
        {
            let ghost prev = v@;
            let (name, _category, brand, price) = table[i];
            assert(table@.map_values(|t: (&str, &str, &str, i32)| (t.0@, t.1@, t.2@, t.3))[i as int]
                == product_table()[i as int]);
            let mut description = string_of("Premium ");
            push_str(&mut description, name);
            push_str(&mut description, " - perfect for your office needs");
            let x = ProductSeed {
                name: string_of(name),
                price,
                description,
                account_id,
                brand_id: find_brand_id(brands, brand),
            };
            v.push(x);
            assert(product_views(v@) =~= product_views(prev).push(x@));
            assert(want.take(i + 1) =~= want.take(i as int).push(want[i as int]));
            i = i + 1;
        }
        assert(want.take(n as int) =~= want);
        v
    }

    /// The customers to create in the account `account_id`, in order.
    pub fn customer_plan(&self, account_id: i32) -> (v: Vec<CustomerSeed>)
        ensures
            customer_views(v@) == customer_plan_view(account_id, self.customer_count as nat),
    {
        let table: [(&str, &str, &str); 10] = [
            ("Emma Thompson", "emma.thompson@email.com", "+1-555-2001"),
            ("Oliver Martinez", "oliver.martinez@email.com", "+1-555-2002"),
            ("Sophia Anderson", "sophia.anderson@email.com", "+1-555-2003"),
            ("Liam Garcia", "liam.garcia@email.com", "+1-555-2004"),
            ("Ava Rodriguez", "ava.rodriguez@email.com", "+1-555-2005"),
            ("Noah Wilson", "noah.wilson@email.com", "+1-555-2006"),
            ("Isabella Taylor", "isabella.taylor@email.com", "+1-555-2007"),
            ("Mason Brown", "mason.brown@email.com", "+1-555-2008"),
            ("Mia Lee", "mia.lee@email.com", "+1-555-2009"),
            ("Ethan White", "ethan.white@email.com", "+1-555-2010"),
        ];
        assert(table@.map_values(|t: (&str, &str, &str)| (t.0@, t.1@, t.2@)) =~= customer_table());
        let n: usize = if self.customer_count < 10 {
            self.customer_count
        } else {
            10
        };
        let ghost want = customer_plan_view(account_id, self.customer_count as nat);
        let mut v: Vec<CustomerSeed> = Vec::new();
        let mut i: usize = 0;
        while i < n
            invariant
                i <= n <= 10,
                n == min_nat(self.customer_count as nat, 10),
                table@.map_values(|t: (&str, &str, &str)| (t.0@, t.1@, t.2@)) == customer_table(),
                want == customer_plan_view(account_id, self.customer_count as nat),
                customer_views(v@) == want.take(i as int),
            decreases n - i,
        {
            let ghost prev = v@;
            let (name, email, phone) = table[i];
            assert(table@.map_values(|t: (&str, &str, &str)| (t.0@, t.1@, t.2@))[i as int]
                == customer_table()[i as int]);
            let x = CustomerSeed {
                name: string_of(name),
                email: string_of(email),
                phone: string_of(phone),
                account_id,
            };
            v.push(x);
            assert(customer_views(v@) =~= customer_views(prev).push(x@));
            assert(want.take(i + 1) =~= want.take(i as int).push(want[i as int]));
            i = i + 1;
        }
        assert(want.take(n as int) =~= want);
        v
    }

    /// The addresses to create for the `i`-th customer of the plan, stored
    /// under `customer_id`.
    pub fn customer_addresses(account_id: i32, i: usize, customer_id: i32) -> (v: Vec<AddressSeed>)
        ensures
            address_views(v@) == customer_addresses(account_id, i as nat, customer_id),
    {
        let mut v: Vec<AddressSeed> = Vec::new();
        if i < 3 {
            let k = i as u64;
            v.push(address_seed(account_id, customer_id, "billing", 100 + 10 * k, " Main St", "62701"));
            v.push(address_seed(account_id, customer_id, "shipping", 200 + 10 * k, " Oak Ave", "62702"));
        }
        assert(address_views(v@) =~= customer_addresses(account_id, i as nat, customer_id));
        v
    }
}

impl Default for EntityFixtures {
    fn default() -> (f: Self)
        ensures
            f == EntityFixtures::new_spec(),
    {
        Self::new()
    }
}

impl Fixture for EntityFixtures {
    open spec fn spec_order(&self) -> i32 {
        20
    }

    open spec fn spec_enabled(&self) -> bool {
        true
    }

    fn name(&self) -> (r: &str)
        ensures
            r@ == "EntityFixtures"@,
    {
        "EntityFixtures"
    }

    fn description(&self) -> (r: &str)
        ensures
            r@ == "Create test data for business entities (organizations, products, customers)"@,
    {
        "Create test data for business entities (organizations, products, customers)"
    }

    fn order(&self) -> (r: i32) {
        20
    }

    fn enabled(&self) -> (r: bool) {
        true
    }
}

} // verus!
