use db_benchmark::generate::{
    decimal_text, generate_random_order, generate_random_product, generate_random_user,
    generate_test_batch, order_from_draws, product_from_draws, render_template, user_from_draws,
};
use db_benchmark::models::Timestamp;
use std::collections::HashSet;

fn templated_number(s: &str, prefix: &str, suffix: &str) -> u32 {
    assert!(s.starts_with(prefix), "{} does not start with {}", s, prefix);
    assert!(s.ends_with(suffix), "{} does not end with {}", s, suffix);
    let digits = &s[prefix.len()..s.len() - suffix.len()];
    assert_eq!(digits.len(), 4);
    let n: u32 = digits.parse().unwrap();
    assert!((1000..9999).contains(&n));
    n
}

#[test]
fn generated_user_follows_the_templates() {
    for _ in 0..200 {
        let u = generate_random_user();
        templated_number(&u.name, "User ", "");
        templated_number(&u.email, "user", "@example.com");
        assert!(u.created_at.micros > 1_600_000_000_000_000);
        assert_eq!((u.id >> 76) & 0xf, 4);
    }
}

#[test]
fn generated_users_are_mostly_active() {
    let active = (0..2000).filter(|_| generate_random_user().active).count();
    assert!(active > 1600 && active < 1990, "{} of 2000 active", active);
}

#[test]
fn generated_product_has_price_and_stock_in_range() {
    for _ in 0..500 {
        let p = generate_random_product();
        templated_number(&p.name, "Product ", "");
        templated_number(&p.description, "Description for product ", "");
        assert!((100..10000).contains(&p.price_cents));
        assert!((0..1000).contains(&p.stock));
    }
}

#[test]
fn generated_order_keeps_its_references() {
    for _ in 0..500 {
        let o = generate_random_order(17, 42);
        assert_eq!(o.user_id, 17);
        assert_eq!(o.product_id, 42);
        assert!((1..10).contains(&o.quantity));
        let q = o.quantity as u64;
        assert_eq!(o.total_price_cents % q, 0);
        assert!((1000..10000).contains(&(o.total_price_cents / q)));
        assert_ne!(o.id, 17);
    }
}

#[test]
fn batch_orders_refer_to_the_same_batch() {
    let b = generate_test_batch(1000);
    assert_eq!(b.users.len(), 1000);
    assert_eq!(b.products.len(), 1000);
    assert_eq!(b.orders.len(), 1000);
    let users: HashSet<u128> = b.users.iter().map(|u| u.id).collect();
    let products: HashSet<u128> = b.products.iter().map(|p| p.id).collect();
    for (i, o) in b.orders.iter().enumerate() {
        assert!(users.contains(&o.user_id));
        assert!(products.contains(&o.product_id));
        assert_eq!(o.user_id, b.users[i].id);
        assert_eq!(o.product_id, b.products[i].id);
    }
}

#[test]
fn empty_batch_is_empty() {
    let b = generate_test_batch(0);
    assert!(b.users.is_empty() && b.products.is_empty() && b.orders.is_empty());
}

#[test]
fn two_batches_have_distinct_identifiers() {
    let a = generate_test_batch(1000);
    let b = generate_test_batch(1000);
    let mut users = HashSet::new();
    let mut all = HashSet::new();
    for batch in [&a, &b] {
        for u in &batch.users {
            assert!(users.insert(u.id));
            assert!(all.insert(u.id));
        }
        for p in &batch.products {
            assert!(all.insert(p.id));
        }
        for o in &batch.orders {
            assert!(all.insert(o.id));
        }
    }
    assert_eq!(users.len(), 2000);
    assert_eq!(all.len(), 6000);
}

#[test]
fn decimal_text_renders_digits() {
    assert_eq!(decimal_text(0), "0");
    assert_eq!(decimal_text(7), "7");
    assert_eq!(decimal_text(10), "10");
    assert_eq!(decimal_text(9998), "9998");
    assert_eq!(decimal_text(u32::MAX), "4294967295");
}

#[test]
fn render_template_surrounds_the_number() {
    assert_eq!(render_template("user", 1234, "@example.com"), "user1234@example.com");
    assert_eq!(render_template("", 5, ""), "5");
}

#[test]
fn user_is_built_from_its_draws() {
    let t = Timestamp { micros: 42 };
    let u = user_from_draws(99, 1000, 9998, t, false);
    assert_eq!(u.id, 99);
    assert_eq!(u.name, "User 1000");
    assert_eq!(u.email, "user9998@example.com");
    assert_eq!(u.created_at, t);
    assert!(!u.active);
}

#[test]
fn product_is_built_from_its_draws() {
    let t = Timestamp { micros: 7 };
    let p = product_from_draws(5, 4321, 1111, 100, 999, t);
    assert_eq!(p.id, 5);
    assert_eq!(p.name, "Product 4321");
    assert_eq!(p.description, "Description for product 1111");
    assert_eq!(p.price_cents, 100);
    assert_eq!(p.stock, 999);
    assert_eq!(p.created_at, t);
}

#[test]
fn order_total_is_unit_price_times_quantity() {
    let t = Timestamp { micros: 3 };
    let o = order_from_draws(1, 2, 3, 9, 9999, t);
    assert_eq!((o.id, o.user_id, o.product_id), (1, 2, 3));
    assert_eq!(o.quantity, 9);
    assert_eq!(o.total_price_cents, 89991);
    assert_eq!(o.created_at, t);
}

#[test]
fn generated_ids_are_version_four() {
    assert_eq!((generate_random_product().id >> 76) & 0xf, 4);
    assert_eq!((generate_random_order(1, 2).id >> 76) & 0xf, 4);
}
