use postgres_from_row::error::DeriveError;
use postgres_from_row::field::FromRowField;

fn plain_field(ident: &str, ty: &str) -> FromRowField {
    FromRowField {
        ident: ident.to_string(),
        ty: ty.to_string(),
        flatten: false,
        try_from: None,
        from: None,
        rename: None,
        from_fn: None,
        try_from_fn: None,
    }
}

#[test]
fn validate_plain_field() {
    assert_eq!(plain_field("id", "i32").validate(), Ok(()));
}

#[test]
fn validate_single_conversion_attrs() {
    let mut f = plain_field("id", "i32");
    f.from = Some("i64".to_string());
    assert_eq!(f.validate(), Ok(()));

    let mut f = plain_field("id", "i32");
    f.try_from = Some("i64".to_string());
    assert_eq!(f.validate(), Ok(()));

    let mut f = plain_field("id", "i32");
    f.from_fn = Some("conv".to_string());
    assert_eq!(f.validate(), Ok(()));

    let mut f = plain_field("id", "i32");
    f.try_from_fn = Some("conv".to_string());
    assert_eq!(f.validate(), Ok(()));
}

#[test]
fn validate_rejects_combined_conversion_attrs() {
    let mut f = plain_field("id", "i32");
    f.from = Some("i64".to_string());
    f.from_fn = Some("conv".to_string());
    assert_eq!(f.validate(), Err(DeriveError::CombinedFromAttrs));

    let mut f = plain_field("id", "i32");
    f.try_from = Some("i64".to_string());
    f.try_from_fn = Some("conv".to_string());
    assert_eq!(f.validate(), Err(DeriveError::CombinedFromAttrs));
}

#[test]
fn validate_rejects_flatten_with_conversion() {
    let mut f = plain_field("address", "Address");
    f.flatten = true;
    f.from = Some("RawAddress".to_string());
    assert_eq!(f.validate(), Err(DeriveError::FlattenWithFrom));
}

#[test]
fn validate_rejects_flatten_with_rename() {
    let mut f = plain_field("address", "Address");
    f.flatten = true;
    f.rename = Some("addr".to_string());
    assert_eq!(f.validate(), Err(DeriveError::FlattenWithRename));
}

#[test]
fn combined_attrs_reported_before_flatten() {
    let mut f = plain_field("address", "Address");
    f.flatten = true;
    f.from = Some("RawAddress".to_string());
    f.from_fn = Some("conv".to_string());
    assert_eq!(f.validate(), Err(DeriveError::CombinedFromAttrs));
}

#[test]
fn column_name_defaults_to_ident() {
    assert_eq!(plain_field("name", "String").column_name(), "name");
}

#[test]
fn column_name_respects_rename() {
    let mut f = plain_field("name", "String");
    f.rename = Some("user_name".to_string());
    assert_eq!(f.column_name(), "user_name");
}

#[test]
fn target_ty_defaults_to_field_type() {
    assert_eq!(plain_field("id", "i32").target_ty(), Ok("i32".to_string()));
}

#[test]
fn target_ty_prefers_from_over_try_from() {
    let mut f = plain_field("id", "i32");
    f.from = Some("i64".to_string());
    f.try_from = Some("u64".to_string());
    assert_eq!(f.target_ty(), Ok("i64".to_string()));
}

#[test]
fn target_ty_rejects_text_that_does_not_lex() {
    let mut f = plain_field("id", "i32");
    f.from = Some("((".to_string());
    assert_eq!(f.target_ty(), Err(DeriveError::InvalidTokens));
}

#[test]
fn predicates_for_plain_field() {
    let f = plain_field("id", "i32");
    let mut predicates = Vec::new();
    assert_eq!(f.add_predicates(&mut predicates), Ok(()));
    assert_eq!(
        predicates,
        vec![
            "i32: for<'__from_row_lifetime> postgres_from_row::tokio_postgres::types::FromSql<'__from_row_lifetime>"
                .to_string(),
        ],
    );
}

#[test]
fn predicates_for_flattened_field() {
    let mut f = plain_field("address", "Address");
    f.flatten = true;
    let mut predicates = Vec::new();
    assert_eq!(f.add_predicates(&mut predicates), Ok(()));
    assert_eq!(predicates, vec!["Address: postgres_from_row::FromRow".to_string()]);
}

#[test]
fn predicates_for_from_conversion() {
    let mut f = plain_field("level", "Level");
    f.from = Some("i32".to_string());
    let mut predicates = Vec::new();
    assert_eq!(f.add_predicates(&mut predicates), Ok(()));
    assert_eq!(
        predicates,
        vec![
            "i32: for<'__from_row_lifetime> postgres_from_row::tokio_postgres::types::FromSql<'__from_row_lifetime>"
                .to_string(),
            "Level: std::convert::From<i32>".to_string(),
        ],
    );
}

#[test]
fn predicates_for_try_from_conversion() {
    let mut f = plain_field("level", "Level");
    f.try_from = Some("i32".to_string());
    let mut predicates = Vec::new();
    assert_eq!(f.add_predicates(&mut predicates), Ok(()));
    assert_eq!(
        predicates,
        vec![
            "i32: for<'__from_row_lifetime> postgres_from_row::tokio_postgres::types::FromSql<'__from_row_lifetime>"
                .to_string(),
            "Level: std::convert::TryFrom<i32>".to_string(),
            "postgres_from_row::tokio_postgres::Error: std::convert::From<<Level as std::convert::TryFrom<i32>>::Error>"
                .to_string(),
            "<Level as std::convert::TryFrom<i32>>::Error: std::fmt::Debug".to_string(),
        ],
    );
}

#[test]
fn no_predicates_for_conversion_functions() {
    let mut f = plain_field("level", "Level");
    f.from_fn = Some("conv".to_string());
    let mut predicates = Vec::new();
    assert_eq!(f.add_predicates(&mut predicates), Ok(()));
    assert!(predicates.is_empty());
}

#[test]
fn from_row_init_for_plain_field() {
    let f = plain_field("id", "i32");
    assert_eq!(
        f.generate_from_row(),
        Ok("id: postgres_from_row::tokio_postgres::Row::get::<&str, i32>(row, \"id\")".to_string()),
    );
}

#[test]
fn try_from_row_init_for_plain_field() {
    let f = plain_field("id", "i32");
    assert_eq!(
        f.generate_try_from_row(),
        Ok(
            "id: postgres_from_row::tokio_postgres::Row::try_get::<&str, i32>(row, \"id\")?"
                .to_string(),
        ),
    );
}

#[test]
fn from_row_init_for_renamed_field() {
    let mut f = plain_field("name", "String");
    f.rename = Some("user_name".to_string());
    assert_eq!(
        f.generate_from_row(),
        Ok(
            "name: postgres_from_row::tokio_postgres::Row::get::<&str, String>(row, \"user_name\")"
                .to_string(),
        ),
    );
}

#[test]
fn from_row_init_for_flattened_field() {
    let mut f = plain_field("address", "Address");
    f.flatten = true;
    assert_eq!(
        f.generate_from_row(),
        Ok("address: <Address as postgres_from_row::FromRow>::from_row(row)".to_string()),
    );
}

#[test]
fn try_from_row_init_for_flattened_field() {
    let mut f = plain_field("address", "Address");
    f.flatten = true;
    assert_eq!(
        f.generate_try_from_row(),
        Ok("address: <Address as postgres_from_row::FromRow>::try_from_row(row)?".to_string()),
    );
}

#[test]
fn from_row_init_for_from_conversion() {
    let mut f = plain_field("level", "Level");
    f.from = Some("i32".to_string());
    assert_eq!(
        f.generate_from_row(),
        Ok(
            "level: <Level as std::convert::From<i32>>::from(postgres_from_row::tokio_postgres::Row::get::<&str, i32>(row, \"level\"))"
                .to_string(),
        ),
    );
}

#[test]
fn try_from_row_init_for_try_from_conversion() {
    let mut f = plain_field("level", "Level");
    f.try_from = Some("i32".to_string());
    assert_eq!(
        f.generate_from_row(),
        Ok(
            "level: <Level as std::convert::TryFrom<i32>>::try_from(postgres_from_row::tokio_postgres::Row::get::<&str, i32>(row, \"level\")).expect(\"could not convert column\")"
                .to_string(),
        ),
    );
    assert_eq!(
        f.generate_try_from_row(),
        Ok(
            "level: <Level as std::convert::TryFrom<i32>>::try_from(postgres_from_row::tokio_postgres::Row::try_get::<&str, i32>(row, \"level\")?)?"
                .to_string(),
        ),
    );
}

#[test]
fn init_for_from_fn_conversion() {
    let mut f = plain_field("level", "Level");
    f.from_fn = Some("crate::conv".to_string());
    assert_eq!(
        f.generate_from_row(),
        Ok(
            "level: crate::conv(postgres_from_row::tokio_postgres::Row::get::<&str, _>(row, \"level\"))"
                .to_string(),
        ),
    );
    assert_eq!(
        f.generate_try_from_row(),
        Ok(
            "level: crate::conv(postgres_from_row::tokio_postgres::Row::try_get::<&str, _>(row, \"level\")?)"
                .to_string(),
        ),
    );
}

#[test]
fn init_for_try_from_fn_conversion() {
    let mut f = plain_field("level", "Level");
    f.try_from_fn = Some("conv".to_string());
    assert_eq!(
        f.generate_from_row(),
        Ok(
            "level: conv(postgres_from_row::tokio_postgres::Row::get::<&str, _>(row, \"level\")).expect(\"could not convert column\")"
                .to_string(),
        ),
    );
    assert_eq!(
        f.generate_try_from_row(),
        Ok(
            "level: conv(postgres_from_row::tokio_postgres::Row::try_get::<&str, _>(row, \"level\")?)?"
                .to_string(),
        ),
    );
}

#[test]
fn init_rejects_conversion_fn_that_does_not_lex() {
    let mut f = plain_field("level", "Level");
    f.from_fn = Some("(".to_string());
    assert_eq!(f.generate_from_row(), Err(DeriveError::InvalidTokens));
    assert_eq!(f.generate_try_from_row(), Err(DeriveError::InvalidTokens));
}

#[test]
fn error_messages() {
    assert_eq!(
        DeriveError::CombinedFromAttrs.message(),
        "can't use the `#[from_row(*from*)]` attributes together",
    );
    assert_eq!(
        DeriveError::FlattenWithFrom.message(),
        "can't combine `#[from_row(flatten)]` with one of the `#[from_row(*from*)]` attributes`",
    );
    assert_eq!(
        DeriveError::FlattenWithRename.message(),
        "can't combine `#[from_row(flatten)]` with `#[from_row(rename = \"..\")]`",
    );
    assert_eq!(
        DeriveError::InvalidTokens.message(),
        "attribute value does not lex as Rust tokens",
    );
}
