use crate::measure::now_timestamp;
use crate::models::{Order, Product, Timestamp, User};
use rand::Rng;
use vstd::arithmetic::div_mod::lemma_small_mod;
use vstd::prelude::*;

verus! {

/// Relies on rand::Rng::gen_range on the thread-local generator: a value drawn
/// from `low..high`, which must not be empty.
#[verifier::external_body]
fn random_in_range(low: u32, high: u32) -> (r: u32)
    requires
        low < high,
    ensures
        low <= r < high,
{
    rand::thread_rng().gen_range(low..high)
}

/// Relies on rand::Rng::gen_ratio on the thread-local generator: `true` with
/// probability `numerator / denominator`.
#[verifier::external_body]
fn random_ratio(numerator: u32, denominator: u32) -> (r: bool)
    requires
        0 < denominator,
        numerator <= denominator,
{
    rand::thread_rng().gen_ratio(numerator, denominator)
}

/// Bit 76 to 79 of a 128-bit identifier: its UUID version.
pub open spec fn uuid_version(id: u128) -> u128 {
    (id >> 76u128) & 0xfu128
}

/// Relies on uuid::Uuid::new_v4 and Uuid::as_u128: a random version-4 UUID
/// as a 128-bit number.
#[verifier::external_body]
fn new_identifier() -> (r: u128)
    ensures
        uuid_version(r) == 4,
{
    uuid::Uuid::new_v4().as_u128()
}

/// The decimal digit `d`.
pub open spec fn digit_char(d: nat) -> char {
    seq!['0', '1', '2', '3', '4', '5', '6', '7', '8', '9'][d as int]
}

/// The decimal rendering of `n`, without leading zeros.
pub open spec fn decimal_digits(n: nat) -> Seq<char>
    decreases n,
{
    if n < 10 {
        seq![digit_char(n)]
    } else {
        decimal_digits(n / 10).push(digit_char(n % 10))
    }
}

/// The decimal digit `d` as a one-character string.
fn digit_text(d: u32) -> (r: &'static str)
    requires
        d < 10,
    ensures
        r@ == seq![digit_char(d as nat)],
{
    proof {
        reveal_strlit("0");
        reveal_strlit("1");
        reveal_strlit("2");
        reveal_strlit("3");
        reveal_strlit("4");
        reveal_strlit("5");
        reveal_strlit("6");
        reveal_strlit("7");
        reveal_strlit("8");
        reveal_strlit("9");
    }
    let r = if d == 0 {
        "0"
    } else if d == 1 {
        "1"
    } else if d == 2 {
        "2"
    } else if d == 3 {
        "3"
    } else if d == 4 {
        "4"
    } else if d == 5 {
        "5"
    } else if d == 6 {
        "6"
    } else if d == 7 {
        "7"
    } else if d == 8 {
        "8"
    } else {
        "9"
    };
    assert(r@ =~= seq![digit_char(d as nat)]);
    r
}

/// The decimal digits of `n`, without leading zeros.
pub fn decimal_text(n: u32) -> (r: String)
    ensures
        r@ == decimal_digits(n as nat),
    decreases n,
{
    if n < 10 {
        digit_text(n).to_owned()
    } else {
        let head = decimal_text(n / 10);
        let r = head.concat(digit_text(n % 10));
        assert(r@ =~= decimal_digits(n as nat));
        r
    }
}

/// `prefix` followed by the decimal digits of `n` and by `suffix`.
pub open spec fn templated(prefix: Seq<char>, n: nat, suffix: Seq<char>) -> Seq<char> {
    prefix + decimal_digits(n) + suffix
}

/// `s` is `prefix`, a number in 1000..9999, then `suffix`.
pub open spec fn is_templated(s: Seq<char>, prefix: Seq<char>, suffix: Seq<char>) -> bool {
    exists|n: nat| 1000 <= n < 9999 && s == #[trigger] templated(prefix, n, suffix)
}

/// `prefix`, the decimal digits of `n`, then `suffix`.
pub fn render_template(prefix: &str, n: u32, suffix: &str) -> (r: String)
    ensures
        r@ == templated(prefix@, n as nat, suffix@),
{
    let digits = decimal_text(n);
    let head = prefix.to_owned().concat(digits.as_str());
    head.concat(suffix)
}

/// What the generator promises of a user.
pub open spec fn is_generated_user(u: User) -> bool {
    &&& uuid_version(u.id) == 4
    &&& is_templated(u.name@, "User "@, ""@)
    &&& is_templated(u.email@, "user"@, "@example.com"@)
}

/// What the generator promises of a product.
pub open spec fn is_generated_product(p: Product) -> bool {
    &&& uuid_version(p.id) == 4
    &&& is_templated(p.name@, "Product "@, ""@)
    &&& is_templated(p.description@, "Description for product "@, ""@)
    &&& 100 <= p.price_cents < 10000
    &&& 0 <= p.stock < 1000
}

/// What the generator promises of an order: a version-4 identifier, a
/// quantity in 1..10 and a total that is the quantity times a unit price in
/// 1000..10000 cents.
pub open spec fn is_generated_order(o: Order) -> bool {
    &&& uuid_version(o.id) == 4
    &&& 1 <= o.quantity < 10
    &&& exists|unit: nat|
        1000 <= unit < 10000 && #[trigger] (unit * o.quantity) == o.total_price_cents
}

/// The user built from drawn values: name `User {name_number}` and email
/// `user{email_number}@example.com`.
pub fn user_from_draws(
    id: u128,
    name_number: u32,
    email_number: u32,
    created_at: Timestamp,
    active: bool,
) -> (r: User)
    ensures
        r.id == id,
        r.name@ == templated("User "@, name_number as nat, ""@),
        r.email@ == templated("user"@, email_number as nat, "@example.com"@),
        r.created_at == created_at,
        r.active == active,
{
    let name = render_template("User ", name_number, "");
    let email = render_template("user", email_number, "@example.com");
    User { id, name, email, created_at, active }
}

/// The product built from drawn values: name `Product {name_number}` and
/// description `Description for product {description_number}`.
pub fn product_from_draws(
    id: u128,
    name_number: u32,
    description_number: u32,
    price_cents: u64,
    stock: i32,
    created_at: Timestamp,
) -> (r: Product)
    ensures
        r.id == id,
        r.name@ == templated("Product "@, name_number as nat, ""@),
        r.description@ == templated(
            "Description for product "@,
            description_number as nat,
            ""@,
        ),
        r.price_cents == price_cents,
        r.stock == stock,
        r.created_at == created_at,
{
    let name = render_template("Product ", name_number, "");
    let description = render_template("Description for product ", description_number, "");
    Product { id, name, description, price_cents, stock, created_at }
}

/// The order built from drawn values; its total is `unit_price_cents`
/// times `quantity`.
pub fn order_from_draws(
    id: u128,
    user_id: u128,
    product_id: u128,
    quantity: i32,
    unit_price_cents: u64,
    created_at: Timestamp,
) -> (r: Order)
    requires
        0 <= quantity,
        unit_price_cents * quantity <= u64::MAX,
    ensures
        r.id == id,
        r.user_id == user_id,
        r.product_id == product_id,
        r.quantity == quantity,
        r.total_price_cents == unit_price_cents * quantity,
        r.created_at == created_at,
{
    let total_price_cents = unit_price_cents * quantity as u64;
    Order { id, user_id, product_id, quantity, total_price_cents, created_at }
}

/// A new user with a fresh identifier, a templated name and email, created
/// now, and active with probability nine in ten.
pub fn generate_random_user() -> (r: User)
    ensures
        is_generated_user(r),
{
    let id = new_identifier();
    let name_number = random_in_range(1000, 9999);
    let email_number = random_in_range(1000, 9999);
    let created_at = now_timestamp();
    let active = random_ratio(9, 10);
    let r = user_from_draws(id, name_number, email_number, created_at, active);
    assert(is_templated(r.name@, "User "@, ""@)) by {
        assert(r.name@ == templated("User "@, name_number as nat, ""@));
    }
    assert(is_templated(r.email@, "user"@, "@example.com"@)) by {
        assert(r.email@ == templated("user"@, email_number as nat, "@example.com"@));
    }
    r
}

/// A new product with a fresh identifier, templated name and description, a
/// price in 1.00..100.00 and a stock in 0..1000.
pub fn generate_random_product() -> (r: Product)
    ensures
        is_generated_product(r),
{
    let id = new_identifier();
    let name_number = random_in_range(1000, 9999);
    let description_number = random_in_range(1000, 9999);
    let price_cents = random_in_range(100, 10000);
    let stock = random_in_range(0, 1000);
    let created_at = now_timestamp();
    let r = product_from_draws(
        id,
        name_number,
        description_number,
        price_cents as u64,
        stock as i32,
        created_at,
    );
    assert(is_templated(r.name@, "Product "@, ""@)) by {
        assert(r.name@ == templated("Product "@, name_number as nat, ""@));
    }
    assert(is_templated(r.description@, "Description for product "@, ""@)) by {
        assert(r.description@ == templated(
            "Description for product "@,
            description_number as nat,
            ""@,
        ));
    }
    r
}

/// A new order of `product_id` by `user_id`, with a fresh identifier.
pub fn generate_random_order(user_id: u128, product_id: u128) -> (r: Order)
    ensures
        r.user_id == user_id,
        r.product_id == product_id,
        is_generated_order(r),
{
    let quantity = random_in_range(1, 10);
    let unit_cents = random_in_range(1000, 10000);
    assert(unit_cents as u64 * quantity as u64 <= 10000 * 10) by (nonlinear_arith)
        requires
            unit_cents < 10000,
            quantity < 10,
    ;
    let id = new_identifier();
    let created_at = now_timestamp();
    let r = order_from_draws(id, user_id, product_id, quantity as i32, unit_cents as u64, created_at);
    assert(unit_cents as nat * r.quantity == r.total_price_cents);
    r
}

/// One batch of synthetic data: users and products first, then orders that
/// pair them by index.
#[derive(Clone, Debug, PartialEq, Eq)]
pub struct TestBatch {
    pub users: Vec<User>,
    pub products: Vec<Product>,
    pub orders: Vec<Order>,
}

/// `b` holds `count` generated users, products and orders, where order `i`
/// refers to user and product `i` modulo the collection size.
pub open spec fn is_generated_batch(b: TestBatch, count: nat) -> bool {
    &&& b.users@.len() == count
    &&& b.products@.len() == count
    &&& b.orders@.len() == count
    &&& forall|i: int| 0 <= i < count ==> is_generated_user(#[trigger] b.users@[i])
    &&& forall|i: int| 0 <= i < count ==> is_generated_product(#[trigger] b.products@[i])
    &&& forall|i: int|
        0 <= i < count ==> {
            &&& is_generated_order(#[trigger] b.orders@[i])
            &&& b.orders@[i].user_id == b.users@[i % (count as int)].id
            &&& b.orders@[i].product_id == b.products@[i % (count as int)].id
        }
}

/// Generates `count` users, then `count` products, then `count` orders, order
/// `i` pairing user and product `i` modulo the collection size.
pub fn generate_test_batch(count: usize) -> (r: TestBatch)
    ensures
        is_generated_batch(r, count as nat),
{
    let mut users: Vec<User> = Vec::new();
    let mut i: usize = 0;
    while i < count
        invariant
            i <= count,
            users@.len() == i,
            forall|j: int| 0 <= j < i ==> is_generated_user(#[trigger] users@[j]),
        decreases count - i,
    {
        users.push(generate_random_user());
        i = i + 1;
    }
    let mut products: Vec<Product> = Vec::new();
    let mut i: usize = 0;
    while i < count
        invariant
            i <= count,
            products@.len() == i,
            forall|j: int| 0 <= j < i ==> is_generated_product(#[trigger] products@[j]),
        decreases count - i,
    {
        products.push(generate_random_product());
        i = i + 1;
    }
    let mut orders: Vec<Order> = Vec::new();
    let mut i: usize = 0;
    while i < count
        invariant
            i <= count,
            users@.len() == count,
            products@.len() == count,
            orders@.len() == i,
            forall|j: int|
                0 <= j < i ==> {
                    &&& is_generated_order(#[trigger] orders@[j])
                    &&& orders@[j].user_id == users@[j % (count as int)].id
                    &&& orders@[j].product_id == products@[j % (count as int)].id
                },
        decreases count - i,
    {
        let user_id = users[i % users.len()].id;
        let product_id = products[i % products.len()].id;
        orders.push(generate_random_order(user_id, product_id));
        i = i + 1;
    }
    TestBatch { users, products, orders }
}

/// Some user of `b` has identifier `id`.
pub open spec fn has_user(b: TestBatch, id: u128) -> bool {
    exists|j: int| 0 <= j < b.users@.len() && #[trigger] b.users@[j].id == id
}

/// Some product of `b` has identifier `id`.
pub open spec fn has_product(b: TestBatch, id: u128) -> bool {
    exists|j: int| 0 <= j < b.products@.len() && #[trigger] b.products@[j].id == id
}

/// Every order of a generated batch refers to a user and to a product of that
/// same batch.
pub proof fn lemma_generated_orders_resolve(batch: TestBatch, count: nat)
    requires
        is_generated_batch(batch, count),
    ensures
        forall|i: int|
            0 <= i < batch.orders@.len() ==> {
                &&& has_user(batch, #[trigger] batch.orders@[i].user_id)
                &&& has_product(batch, batch.orders@[i].product_id)
            },
{
    assert forall|i: int| 0 <= i < batch.orders@.len() implies {
        &&& has_user(batch, #[trigger] batch.orders@[i].user_id)
        &&& has_product(batch, batch.orders@[i].product_id)
    } by {
        lemma_small_mod(i as nat, count);
        assert(batch.users@[i].id == batch.orders@[i].user_id);
        assert(batch.products@[i].id == batch.orders@[i].product_id);
    }
}

} // verus!
