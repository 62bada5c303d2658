use gateway_client::graphql::{Details, GraphqlError};
use gateway_client::model::Model;

const ALL: [(Model, &str, &str); 29] = [
    (Model::Attribute, "attribute", "attributes"),
    (Model::AttributeValue, "attribute_value", "values"),
    (Model::AvailablePackageForUser, "available_package_for_user", "available_packages_for_user"),
    (Model::CustomAttribute, "custom_attribute", "custom_attributes"),
    (Model::BaseProduct, "base_product", "base_products"),
    (Model::Cart, "cart", "cart"),
    (Model::CartProduct, "cart_product", "cart_products"),
    (Model::CartStore, "cart_store", "cart_store"),
    (Model::Category, "category", "categories"),
    (Model::Company, "company", "companies"),
    (Model::CompanyPackage, "company_package", "companies_packages"),
    (Model::Country, "country", "countries"),
    (Model::Coupon, "coupon", "coupons"),
    (Model::JWT, "jwt", "jwt"),
    (Model::ModeratorProductComment, "moderator_product_comment", "moderator_product_comments"),
    (Model::ModeratorStoreComment, "moderator_store_comment", "moderator_store_comments"),
    (Model::Order, "order", "orders"),
    (Model::Package, "package", "packages"),
    (Model::Product, "product", "products"),
    (Model::Role, "role", "roles"),
    (Model::SearchCategory, "search_category", "search_category"),
    (Model::ShippingRates, "shipping_rates", "shipping_rates"),
    (Model::Stock, "stock", "stocks"),
    (Model::Store, "store", "stores"),
    (Model::User, "user", "users"),
    (Model::UserDeliveryAddress, "user_delivery_address", "user_delivery_address"),
    (Model::UserRoles, "user_roles", "user_roles"),
    (Model::Warehouse, "warehouse", "warehouses"),
    (Model::WizardStore, "wizard_store", "wizard_stores"),
];

#[test]
fn every_model_has_its_url() {
    for (model, _, url) in ALL {
        assert_eq!(model.to_url(), url);
    }
}

#[test]
fn every_model_has_its_name() {
    for (model, name, _) in ALL {
        assert_eq!(model.to_string(), name);
    }
}

#[test]
fn every_name_resolves_to_its_model() {
    for (model, name, _) in ALL {
        assert_eq!(Model::from_str(name), Ok(model));
        assert_eq!(Model::from_str(&model.to_string()), Ok(model));
    }
}

#[test]
fn unknown_name_is_reported() {
    assert_eq!(
        Model::from_str("basket"),
        Err(GraphqlError {
            message: "Unknown model".to_string(),
            code: 300,
            details: Details::Text(
                "Can not resolve model name. Unknown model: 'basket'".to_string()
            ),
        })
    );
    assert!(Model::from_str("").is_err());
    assert!(Model::from_str("Cart").is_err());
    assert!(Model::from_str("cart ").is_err());
    assert!(Model::from_str("users").is_err());
}
