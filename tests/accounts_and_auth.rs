use airbnb_backend::auth::{bearer_token, role_allows, Claims};
use airbnb_backend::error::AppError;
use airbnb_backend::models::{AuthUser, CreatePropertyRequest, CreateUserRequest, LoginRequest, PropertyType, UserRole};
use airbnb_backend::store::Store;

fn signup(email: &str, password: &str) -> CreateUserRequest {
    CreateUserRequest {
        email: email.to_string(),
        password: password.to_string(),
        first_name: "Ada".to_string(),
        last_name: "Lovelace".to_string(),
    }
}

#[test]
fn register_then_login() {
    let mut store = Store::new();
    let u = store.register(signup("ada@example.com", "correct horse"), 7).unwrap();
    assert_eq!(u.id, 1);
    assert_eq!(u.role, UserRole::User);
    assert!(u.is_active);
    assert_eq!(u.created_at, 7);
    assert_ne!(u.password_hash, "correct horse");
    assert!(u.password_hash.starts_with("$2"));
    let ok = store.login(&LoginRequest { email: "ada@example.com".to_string(), password: "correct horse".to_string() });
    assert_eq!(ok.unwrap().id, 1);
}

#[test]
fn login_with_wrong_password_fails() {
    let mut store = Store::new();
    store.register(signup("bob@example.com", "password123"), 0).unwrap();
    let r = store.login(&LoginRequest { email: "bob@example.com".to_string(), password: "password124".to_string() });
    assert!(matches!(r, Err(AppError::Authentication(_))));
}

#[test]
fn registration_and_login_validation() {
    let mut store = Store::new();
    assert!(matches!(store.register(signup("not-an-email", "password123"), 0), Err(AppError::Validation(_))));
    assert!(matches!(store.register(signup("eve@example.com", "short"), 0), Err(AppError::Validation(_))));
    let mut no_name = signup("eve@example.com", "password123");
    no_name.first_name = String::new();
    assert!(matches!(store.register(no_name, 0), Err(AppError::Validation(_))));
    let r = store.login(&LoginRequest { email: "nobody@example.com".to_string(), password: "x".to_string() });
    assert!(matches!(r, Err(AppError::Authentication(_))));
    let r = store.login(&LoginRequest { email: "nobody@example.com".to_string(), password: String::new() });
    assert!(matches!(r, Err(AppError::Validation(_))));
    assert!(store.get_user_by_email(&"nobody@example.com".to_string()).is_none());
}

#[test]
fn duplicate_email_is_refused() {
    let mut store = Store::new();
    store.register(signup("carol@example.com", "password123"), 0).unwrap();
    let again = store.register(signup("carol@example.com", "password456"), 1);
    assert!(matches!(again, Err(AppError::BadRequest(_))));
    assert_eq!(store.get_user_by_email(&"carol@example.com".to_string()).unwrap().id, 1);
    assert!(store.get_user_by_id(2).is_none());
}

#[test]
fn only_admins_provision_owners() {
    let mut store = Store::new();
    let guest = AuthUser { id: 5, email: "g@example.com".to_string(), role: UserRole::User };
    let r = store.create_property_owner(&guest, signup("owner@example.com", "password123"), 0);
    assert!(matches!(r, Err(AppError::Authorization(_))));
    let r = store.create_property_owner(&guest, signup("bad", "password123"), 0);
    assert!(matches!(r, Err(AppError::Validation(_))));
    let admin = AuthUser { id: 6, email: "a@example.com".to_string(), role: UserRole::Admin };
    let o = store.create_property_owner(&admin, signup("owner@example.com", "password123"), 0).unwrap();
    assert_eq!(o.role, UserRole::PropertyOwner);
}

#[test]
fn token_subject_names_an_active_user() {
    let mut store = Store::new();
    let u = store.register(signup("dan@example.com", "password123"), 0).unwrap();
    let claims = Claims::issue(u.id, u.role, 1_700_000_000, 24).unwrap();
    assert_eq!(claims.sub, "00000000-0000-0000-0000-000000000001");
    assert_eq!(claims.exp, 1_700_000_000 + 24 * 3600);
    assert_eq!(claims.iat, 1_700_000_000);
    let who = store.current_user(&claims.sub).unwrap();
    assert_eq!(who.id, u.id);
    assert_eq!(who.email, "dan@example.com");
    assert!(matches!(store.current_user("not-a-uuid"), Err(AppError::Validation(_))));
    assert!(matches!(
        store.current_user("00000000-0000-0000-0000-000000000009"),
        Err(AppError::Authentication(_))
    ));
    assert!(Claims::issue(1, UserRole::User, i64::MAX - 10, 1).is_none());
}

#[test]
fn bearer_header_parsing() {
    assert_eq!(bearer_token("Bearer abc.def").unwrap(), "abc.def");
    assert_eq!(bearer_token("Bearer ").unwrap(), "");
    assert!(matches!(bearer_token("Basic abc"), Err(AppError::Authentication(_))));
    assert!(matches!(bearer_token("bearer abc"), Err(AppError::Authentication(_))));
    assert!(matches!(bearer_token("Bear"), Err(AppError::Authentication(_))));
}

#[test]
fn role_checks_let_admins_through() {
    assert!(role_allows(UserRole::Admin, UserRole::PropertyOwner));
    assert!(role_allows(UserRole::PropertyOwner, UserRole::PropertyOwner));
    assert!(!role_allows(UserRole::User, UserRole::PropertyOwner));
    assert!(!role_allows(UserRole::PropertyOwner, UserRole::Admin));
    assert!(role_allows(UserRole::User, UserRole::User));
}

#[test]
fn property_views_join_the_owner() {
    let mut store = Store::new();
    let admin = AuthUser { id: 99, email: "root@example.com".to_string(), role: UserRole::Admin };
    let owner = store.create_property_owner(&admin, signup("host@example.com", "password123"), 0).unwrap();
    let actor = owner.auth_user();
    let req = CreatePropertyRequest {
        title: "Cabin".to_string(),
        description: "Quiet".to_string(),
        property_type: PropertyType::Hostel,
        location: "Woods".to_string(),
        address: "2 Pine Lane".to_string(),
        city: "Bergen".to_string(),
        country: "Norway".to_string(),
        postal_code: "5003".to_string(),
        price_per_night: 5000,
        max_guests: 3,
        bedrooms: 1,
        bathrooms: 1,
        amenities: vec!["sauna".to_string(), "fireplace".to_string()],
        images: vec!["cabin.jpg".to_string()],
    };
    let p = store.create_property(&actor, req, 1).unwrap();
    let view = store.get_property(p.id).unwrap();
    assert_eq!(view.owner.email, "host@example.com");
    assert_eq!(view.owner.first_name, "Ada");
    assert_eq!(view.amenities.len(), 2);
    assert_eq!(view.price_per_night, 5000);
    assert!(matches!(store.get_property(p.id + 1), Err(AppError::NotFound(_))));
    let orphan = store
        .create_property(&admin, CreatePropertyRequest { title: "Loft".to_string(), ..store_request_copy(&view) }, 2)
        .unwrap();
    assert!(matches!(store.get_property(orphan.id), Err(AppError::NotFound(_))));
    assert!(matches!(store.list_properties(None, None), Err(AppError::NotFound(_))));
    assert!(matches!(store.list_properties(Some(1), Some(1)), Err(AppError::NotFound(_))));
    let second = store.list_properties(Some(2), Some(1)).unwrap();
    assert_eq!(second.total, 2);
    assert_eq!(second.page, 2);
    assert_eq!(second.per_page, 1);
    assert_eq!(second.data.len(), 1);
    assert_eq!(second.data[0].title, "Cabin");
    assert_eq!(second.total_pages, 2);
    assert!(matches!(store.list_properties(Some(0), None), Err(AppError::Validation(_))));
    let empty = store.list_properties(Some(5), None).unwrap();
    assert!(empty.data.is_empty());
    assert_eq!(empty.total_pages, 1);
    assert!(matches!(store.list_properties(None, Some(-3)), Err(AppError::Validation(_))));
}

fn store_request_copy(v: &airbnb_backend::responses::PropertyResponse) -> CreatePropertyRequest {
    CreatePropertyRequest {
        title: v.title.clone(),
        description: v.description.clone(),
        property_type: v.property_type,
        location: v.location.clone(),
        address: v.address.clone(),
        city: v.city.clone(),
        country: v.country.clone(),
        postal_code: "5004".to_string(),
        price_per_night: v.price_per_night,
        max_guests: v.max_guests,
        bedrooms: v.bedrooms,
        bathrooms: v.bathrooms,
        amenities: vec![],
        images: vec![],
    }
}
