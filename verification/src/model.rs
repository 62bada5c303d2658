//! The resources that sibling services expose, with the name each one goes
//! by and the path segment under which it is served.

use vstd::prelude::*;
use vstd::string::StringExecFns;
use crate::graphql::{Details, DetailsView, GraphqlError, GraphqlErrorView};
use crate::text::same_text;

verus! {

/// A resource of the platform.
#[derive(Clone, Copy, Debug, PartialEq, Eq, Hash)]
pub enum Model {
    Attribute,
    AttributeValue,
    AvailablePackageForUser,
    CustomAttribute,
    BaseProduct,
    Cart,
    CartProduct,
    CartStore,
    Category,
    Company,
    CompanyPackage,
    Country,
    Coupon,
    JWT,
    ModeratorProductComment,
    ModeratorStoreComment,
    Order,
    Package,
    Product,
    Role,
    SearchCategory,
    ShippingRates,
    Stock,
    Store,
    User,
    UserDeliveryAddress,
    UserRoles,
    Warehouse,
    WizardStore,
}

/// The outward code of a failure to resolve a name.
pub const UNKNOWN_MODEL_CODE: u32 = 300;

/// The error reported for a text that names no resource.
pub open spec fn unknown_model(text: Seq<char>) -> GraphqlErrorView {
    GraphqlErrorView {
        message: "Unknown model"@,
        code: UNKNOWN_MODEL_CODE,
        details: DetailsView::Text(
            "Can not resolve model name. Unknown model: '"@ + text + "'"@,
        ),
    }
}

impl Model {
    /// The name of the resource, in snake case.
    pub open spec fn name(self) -> Seq<char> {
        match self {
            Model::Attribute => "attribute"@,
            Model::AttributeValue => "attribute_value"@,
            Model::AvailablePackageForUser => "available_package_for_user"@,
            Model::CustomAttribute => "custom_attribute"@,
            Model::BaseProduct => "base_product"@,
            Model::Cart => "cart"@,
            Model::CartProduct => "cart_product"@,
            Model::CartStore => "cart_store"@,
            Model::Category => "category"@,
            Model::Company => "company"@,
            Model::CompanyPackage => "company_package"@,
            Model::Country => "country"@,
            Model::Coupon => "coupon"@,
            Model::JWT => "jwt"@,
            Model::ModeratorProductComment => "moderator_product_comment"@,
            Model::ModeratorStoreComment => "moderator_store_comment"@,
            Model::Order => "order"@,
            Model::Package => "package"@,
            Model::Product => "product"@,
            Model::Role => "role"@,
            Model::SearchCategory => "search_category"@,
            Model::ShippingRates => "shipping_rates"@,
            Model::Stock => "stock"@,
            Model::Store => "store"@,
            Model::User => "user"@,
            Model::UserDeliveryAddress => "user_delivery_address"@,
            Model::UserRoles => "user_roles"@,
            Model::Warehouse => "warehouse"@,
            Model::WizardStore => "wizard_store"@,
        }
    }

    /// The path segment under which the resource is served.
    pub open spec fn url(self) -> Seq<char> {
        match self {
            Model::Attribute => "attributes"@,
            Model::AttributeValue => "values"@,
            Model::AvailablePackageForUser => "available_packages_for_user"@,
            Model::CustomAttribute => "custom_attributes"@,
            Model::BaseProduct => "base_products"@,
            Model::Cart => "cart"@,
            Model::CartProduct => "cart_products"@,
            Model::CartStore => "cart_store"@,
            Model::Category => "categories"@,
            Model::Company => "companies"@,
            Model::CompanyPackage => "companies_packages"@,
            Model::Country => "countries"@,
            Model::Coupon => "coupons"@,
            Model::JWT => "jwt"@,
            Model::ModeratorProductComment => "moderator_product_comments"@,
            Model::ModeratorStoreComment => "moderator_store_comments"@,
            Model::Order => "orders"@,
            Model::Package => "packages"@,
            Model::Product => "products"@,
            Model::Role => "roles"@,
            Model::SearchCategory => "search_category"@,
            Model::ShippingRates => "shipping_rates"@,
            Model::Stock => "stocks"@,
            Model::Store => "stores"@,
            Model::User => "users"@,
            Model::UserDeliveryAddress => "user_delivery_address"@,
            Model::UserRoles => "user_roles"@,
            Model::Warehouse => "warehouses"@,
            Model::WizardStore => "wizard_stores"@,
        }
    }

    /// Renders the name of the resource.
    pub fn to_string(&self) -> (r: String)
        ensures
            r@ == self.name(),
    {
        match *self {
            Model::Attribute => String::from_str("attribute"),
            Model::AttributeValue => String::from_str("attribute_value"),
            Model::AvailablePackageForUser => String::from_str("available_package_for_user"),
            Model::CustomAttribute => String::from_str("custom_attribute"),
            Model::BaseProduct => String::from_str("base_product"),
            Model::Cart => String::from_str("cart"),
            Model::CartProduct => String::from_str("cart_product"),
            Model::CartStore => String::from_str("cart_store"),
            Model::Category => String::from_str("category"),
            Model::Company => String::from_str("company"),
            Model::CompanyPackage => String::from_str("company_package"),
            Model::Country => String::from_str("country"),
            Model::Coupon => String::from_str("coupon"),
            Model::JWT => String::from_str("jwt"),
            Model::ModeratorProductComment => String::from_str("moderator_product_comment"),
            Model::ModeratorStoreComment => String::from_str("moderator_store_comment"),
            Model::Order => String::from_str("order"),
            Model::Package => String::from_str("package"),
            Model::Product => String::from_str("product"),
            Model::Role => String::from_str("role"),
            Model::SearchCategory => String::from_str("search_category"),
            Model::ShippingRates => String::from_str("shipping_rates"),
            Model::Stock => String::from_str("stock"),
            Model::Store => String::from_str("store"),
            Model::User => String::from_str("user"),
            Model::UserDeliveryAddress => String::from_str("user_delivery_address"),
            Model::UserRoles => String::from_str("user_roles"),
            Model::Warehouse => String::from_str("warehouse"),
            Model::WizardStore => String::from_str("wizard_store"),
        }
    }

    /// Renders the path segment under which the resource is served.
    pub fn to_url(&self) -> (r: String)
        ensures
            r@ == self.url(),
    {
        match *self {
            Model::Attribute => String::from_str("attributes"),
            Model::AttributeValue => String::from_str("values"),
            Model::AvailablePackageForUser => String::from_str("available_packages_for_user"),
            Model::CustomAttribute => String::from_str("custom_attributes"),
            Model::BaseProduct => String::from_str("base_products"),
            Model::Cart => String::from_str("cart"),
            Model::CartProduct => String::from_str("cart_products"),
            Model::CartStore => String::from_str("cart_store"),
            Model::Category => String::from_str("categories"),
            Model::Company => String::from_str("companies"),
            Model::CompanyPackage => String::from_str("companies_packages"),
            Model::Country => String::from_str("countries"),
            Model::Coupon => String::from_str("coupons"),
            Model::JWT => String::from_str("jwt"),
            Model::ModeratorProductComment => String::from_str("moderator_product_comments"),
            Model::ModeratorStoreComment => String::from_str("moderator_store_comments"),
            Model::Order => String::from_str("orders"),
            Model::Package => String::from_str("packages"),
            Model::Product => String::from_str("products"),
            Model::Role => String::from_str("roles"),
            Model::SearchCategory => String::from_str("search_category"),
            Model::ShippingRates => String::from_str("shipping_rates"),
            Model::Stock => String::from_str("stocks"),
            Model::Store => String::from_str("stores"),
            Model::User => String::from_str("users"),
            Model::UserDeliveryAddress => String::from_str("user_delivery_address"),
            Model::UserRoles => String::from_str("user_roles"),
            Model::Warehouse => String::from_str("warehouses"),
            Model::WizardStore => String::from_str("wizard_stores"),
        }
    }

    /// Resolves a name to its resource. A text that is the name of no
    /// resource is answered with the outward error that says so.
    pub fn from_str(s: &str) -> (r: Result<Model, GraphqlError>)
        ensures
            match r {
                Ok(model) => model.name() == s@,
                Err(error) => error@ == unknown_model(s@) && forall|model: Model|
                    model.name() != s@,
            },
    {
        if same_text(s, "attribute") {
            Ok(Model::Attribute)
        } else if same_text(s, "attribute_value") {
            Ok(Model::AttributeValue)
        } else if same_text(s, "available_package_for_user") {
            Ok(Model::AvailablePackageForUser)
        } else if same_text(s, "custom_attribute") {
            Ok(Model::CustomAttribute)
        } else if same_text(s, "base_product") {
            Ok(Model::BaseProduct)
        } else if same_text(s, "cart") {
            Ok(Model::Cart)
        } else if same_text(s, "cart_product") {
            Ok(Model::CartProduct)
        } else if same_text(s, "cart_store") {
            Ok(Model::CartStore)
        } else if same_text(s, "category") {
            Ok(Model::Category)
        } else if same_text(s, "company") {
            Ok(Model::Company)
        } else if same_text(s, "company_package") {
            Ok(Model::CompanyPackage)
        } else if same_text(s, "country") {
            Ok(Model::Country)
        } else if same_text(s, "coupon") {
            Ok(Model::Coupon)
        } else if same_text(s, "jwt") {
            Ok(Model::JWT)
        } else if same_text(s, "moderator_product_comment") {
            Ok(Model::ModeratorProductComment)
        } else if same_text(s, "moderator_store_comment") {
            Ok(Model::ModeratorStoreComment)
        } else if same_text(s, "order") {
            Ok(Model::Order)
        } else if same_text(s, "package") {
            Ok(Model::Package)
        } else if same_text(s, "product") {
            Ok(Model::Product)
        } else if same_text(s, "role") {
            Ok(Model::Role)
        } else if same_text(s, "search_category") {
            Ok(Model::SearchCategory)
        } else if same_text(s, "shipping_rates") {
            Ok(Model::ShippingRates)
        } else if same_text(s, "stock") {
            Ok(Model::Stock)
        } else if same_text(s, "store") {
            Ok(Model::Store)
        } else if same_text(s, "user") {
            Ok(Model::User)
        } else if same_text(s, "user_delivery_address") {
            Ok(Model::UserDeliveryAddress)
        } else if same_text(s, "user_roles") {
            Ok(Model::UserRoles)
        } else if same_text(s, "warehouse") {
            Ok(Model::Warehouse)
        } else if same_text(s, "wizard_store") {
            Ok(Model::WizardStore)
        } else {
            let mut text = String::from_str("Can not resolve model name. Unknown model: '");
            text.append(s);
            text.append("'");
            Err(
                GraphqlError {
                    message: String::from_str("Unknown model"),
                    code: UNKNOWN_MODEL_CODE,
                    details: Details::Text(text),
                },
            )
        }
    }
}

/// No two resources go by the same name, so a name resolves to one
/// resource at most.
pub proof fn lemma_names_are_distinct(a: Model, b: Model)
    requires
        a.name() == b.name(),
    ensures
        a == b,
{
    reveal_strlit("attribute");
    reveal_strlit("attribute_value");
    reveal_strlit("available_package_for_user");
    reveal_strlit("custom_attribute");
    reveal_strlit("base_product");
    reveal_strlit("cart");
    reveal_strlit("cart_product");
    reveal_strlit("cart_store");
    reveal_strlit("category");
    reveal_strlit("company");
    reveal_strlit("company_package");
    reveal_strlit("country");
    reveal_strlit("coupon");
    reveal_strlit("jwt");
    reveal_strlit("moderator_product_comment");
    reveal_strlit("moderator_store_comment");
    reveal_strlit("order");
    reveal_strlit("package");
    reveal_strlit("product");
    reveal_strlit("role");
    reveal_strlit("search_category");
    reveal_strlit("shipping_rates");
    reveal_strlit("stock");
    reveal_strlit("store");
    reveal_strlit("user");
    reveal_strlit("user_delivery_address");
    reveal_strlit("user_roles");
    reveal_strlit("warehouse");
    reveal_strlit("wizard_store");
    let (x, y) = (a.name(), b.name());
    assert(x.len() == y.len() && x[0] == y[0] && x[1] == y[1] && x[2] == y[2] && x[3] == y[3]);
}

} // verus!
