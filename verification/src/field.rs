//! One struct field and the mapping directives given on it.

use crate::error::DeriveError;
use crate::text::push_str;
use crate::text::views;
use crate::tokens::lexes;
use crate::tokens::lexes_as_tokens;
use vstd::prelude::*;

verus! {

/// One field of a struct that derives `FromRow`: its identifier and declared
/// type as source text, and the mapping directives given on it.
pub struct FromRowField {
    /// The identifier of this field.
    pub ident: String,
    /// The declared type of this field, as source text.
    pub ty: String,
    /// Whether to flatten this field: populate it through the `FromRow`
    /// implementation of its type instead of reading one column.
    pub flatten: bool,
    /// Extract a value of this type, then convert it with `TryFrom::try_from`.
    pub try_from: Option<String>,
    /// Extract a value of this type, then convert it with `From::from`.
    pub from: Option<String>,
    /// Read the column of this name instead of the one named after the field.
    /// Not compatible with `flatten`, since no column is read there.
    pub rename: Option<String>,
    /// Convert the extracted value with this function.
    pub from_fn: Option<String>,
    /// Convert the extracted value with this fallible function.
    pub try_from_fn: Option<String>,
}

/// `target: for<'__from_row_lifetime> FromSql<'__from_row_lifetime>`.
pub open spec fn spec_from_sql_bound(target: Seq<char>) -> Seq<char> {
    target
        + ": for<'__from_row_lifetime> postgres_from_row::tokio_postgres::types::FromSql<'__from_row_lifetime>"@
}

/// `target: FromRow`.
pub open spec fn spec_from_row_bound(target: Seq<char>) -> Seq<char> {
    target + ": postgres_from_row::FromRow"@
}

/// `ty: From<target>`.
pub open spec fn spec_from_bound(ty: Seq<char>, target: Seq<char>) -> Seq<char> {
    ty + ": std::convert::From<"@ + target + ">"@
}

/// `ty: TryFrom<target>`.
pub open spec fn spec_try_from_bound(ty: Seq<char>, target: Seq<char>) -> Seq<char> {
    ty + ": std::convert::TryFrom<"@ + target + ">"@
}

/// The client's error type is convertible from the `TryFrom` error.
pub open spec fn spec_try_from_error_bound(ty: Seq<char>, target: Seq<char>) -> Seq<char> {
    "postgres_from_row::tokio_postgres::Error: std::convert::From<<"@ + ty
        + " as std::convert::TryFrom<"@ + target + ">>::Error>"@
}

/// The `TryFrom` error can be formatted for debugging.
pub open spec fn spec_try_from_error_debug_bound(ty: Seq<char>, target: Seq<char>) -> Seq<char> {
    "<"@ + ty + " as std::convert::TryFrom<"@ + target + ">>::Error: std::fmt::Debug"@
}

fn from_sql_bound(target: &str) -> (r: String)
    ensures
        r@ == spec_from_sql_bound(target@),
{
    let mut out = target.to_owned();
    push_str(
        &mut out,
        ": for<'__from_row_lifetime> postgres_from_row::tokio_postgres::types::FromSql<'__from_row_lifetime>",
    );
    out
}

fn from_row_bound(target: &str) -> (r: String)
    ensures
        r@ == spec_from_row_bound(target@),
{
    let mut out = target.to_owned();
    push_str(&mut out, ": postgres_from_row::FromRow");
    out
}

fn from_bound(ty: &str, target: &str) -> (r: String)
    ensures
        r@ == spec_from_bound(ty@, target@),
{
    let mut out = ty.to_owned();
    push_str(&mut out, ": std::convert::From<");
    push_str(&mut out, target);
    push_str(&mut out, ">");
    out
}

fn try_from_bound(ty: &str, target: &str) -> (r: String)
    ensures
        r@ == spec_try_from_bound(ty@, target@),
{
    let mut out = ty.to_owned();
    push_str(&mut out, ": std::convert::TryFrom<");
    push_str(&mut out, target);
    push_str(&mut out, ">");
    out
}

fn try_from_error_bound(ty: &str, target: &str) -> (r: String)
    ensures
        r@ == spec_try_from_error_bound(ty@, target@),
{
    let mut out = "postgres_from_row::tokio_postgres::Error: std::convert::From<<".to_owned();
    push_str(&mut out, ty);
    push_str(&mut out, " as std::convert::TryFrom<");
    push_str(&mut out, target);
    push_str(&mut out, ">>::Error>");
    out
}

fn try_from_error_debug_bound(ty: &str, target: &str) -> (r: String)
    ensures
        r@ == spec_try_from_error_debug_bound(ty@, target@),
{
    let mut out = "<".to_owned();
    push_str(&mut out, ty);
    push_str(&mut out, " as std::convert::TryFrom<");
    push_str(&mut out, target);
    push_str(&mut out, ">>::Error: std::fmt::Debug");
    out
}

impl FromRowField {
    /// How many of the `from`, `from_fn`, `try_from` and `try_from_fn`
    /// directives are given.
    pub open spec fn conversion_attr_count(self) -> int {
        (if self.from is Some {
            1int
        } else {
            0int
        }) + (if self.from_fn is Some {
            1int
        } else {
            0int
        }) + (if self.try_from is Some {
            1int
        } else {
            0int
        }) + (if self.try_from_fn is Some {
            1int
        } else {
            0int
        })
    }

    /// Whether any conversion directive is given.
    pub open spec fn has_conversion_attr(self) -> bool {
        self.conversion_attr_count() > 0
    }

    /// The error in this field's combination of directives, if any.
    pub open spec fn attr_error(self) -> Option<DeriveError> {
        if self.conversion_attr_count() > 1 {
            Some(DeriveError::CombinedFromAttrs)
        } else if self.flatten && self.has_conversion_attr() {
            Some(DeriveError::FlattenWithFrom)
        } else if self.rename is Some && self.flatten {
            Some(DeriveError::FlattenWithRename)
        } else {
            None
        }
    }

    /// Checks whether this field has a valid combination of directives.
    pub fn validate(&self) -> (r: Result<(), DeriveError>)
        ensures
            r is Ok <==> self.attr_error() is None,
            r is Err ==> Some(r->Err_0) == self.attr_error(),
    {
        match (&self.from, &self.from_fn, &self.try_from, &self.try_from_fn) {
            (Some(_), None, None, None) => (),
            (None, Some(_), None, None) => (),
            (None, None, Some(_), None) => (),
            (None, None, None, Some(_)) => (),
            (None, None, None, None) => (),
            _ => {
                return Err(DeriveError::CombinedFromAttrs);
            },
        }
        if self.flatten && (self.from.is_some() || self.try_from.is_some()
            || self.from_fn.is_some() || self.try_from_fn.is_some()) {
            return Err(DeriveError::FlattenWithFrom);
        }
        if self.rename.is_some() && self.flatten {
            return Err(DeriveError::FlattenWithRename);
        }
        Ok(())
    }

    /// The target type of the extraction: the type named by `from` or
    /// `try_from` when one is given, the field's declared type otherwise.
    pub open spec fn spec_target_ty(self) -> Seq<char> {
        if self.from is Some {
            self.from->Some_0@
        } else if self.try_from is Some {
            self.try_from->Some_0@
        } else {
            self.ty@
        }
    }

    /// Whether the text the target type is taken from lexes as Rust tokens.
    pub open spec fn target_ty_ok(self) -> bool {
        if self.from is Some {
            lexes(self.from->Some_0@)
        } else if self.try_from is Some {
            lexes(self.try_from->Some_0@)
        } else {
            true
        }
    }

    /// Returns the type that the extraction should produce: the target of
    /// either `FromRow` (when using `flatten`) or `FromSql`.
    pub fn target_ty(&self) -> (r: Result<String, DeriveError>)
        ensures
            r is Ok <==> self.target_ty_ok(),
            r is Ok ==> r->Ok_0@ == self.spec_target_ty(),
            r is Err ==> r->Err_0 == DeriveError::InvalidTokens,
    {
        if let Some(from) = &self.from {
            if lexes_as_tokens(from.as_str()) {
                Ok(from.clone())
            } else {
                Err(DeriveError::InvalidTokens)
            }
        } else if let Some(try_from) = &self.try_from {
            if lexes_as_tokens(try_from.as_str()) {
                Ok(try_from.clone())
            } else {
                Err(DeriveError::InvalidTokens)
            }
        } else {
            Ok(self.ty.clone())
        }
    }

    /// The name of the column this field is read from: the `rename` directive
    /// when given, the field's own identifier otherwise.
    pub open spec fn spec_column_name(self) -> Seq<char> {
        if self.rename is Some {
            self.rename->Some_0@
        } else {
            self.ident@
        }
    }

    /// Returns the name that maps to the actual sql column.
    pub fn column_name(&self) -> (r: String)
        ensures
            r@ == self.spec_column_name(),
    {
        match &self.rename {
            Some(rename) => rename.clone(),
            None => self.ident.clone(),
        }
    }

    /// The where-clause predicates that this field needs.
    pub open spec fn spec_predicates(self) -> Seq<Seq<char>> {
        let t = self.spec_target_ty();
        let base: Seq<Seq<char>> = if self.try_from_fn is None && self.from_fn is None {
            if self.flatten {
                seq![spec_from_row_bound(t)]
            } else {
                seq![spec_from_sql_bound(t)]
            }
        } else {
            Seq::empty()
        };
        if self.from is Some {
            base + seq![spec_from_bound(self.ty@, t)]
        } else if self.try_from is Some {
            base + seq![
                spec_try_from_bound(self.ty@, t),
                spec_try_from_error_bound(self.ty@, t),
                spec_try_from_error_debug_bound(self.ty@, t),
            ]
        } else {
            base
        }
    }

    /// Pushes the where-clause predicates that this field needs.
    ///
    /// By default the extraction target must implement `FromSql`; with
    /// `flatten` it must implement `FromRow` instead; with `from` or
    /// `try_from` the field's type must additionally be convertible from the
    /// target.
    pub fn add_predicates(&self, predicates: &mut Vec<String>) -> (r: Result<(), DeriveError>)
        ensures
            r is Ok <==> self.target_ty_ok(),
            r is Ok ==> views(final(predicates)@) == views(old(predicates)@)
                + self.spec_predicates(),
            r is Err ==> final(predicates)@ == old(predicates)@ && r->Err_0
                == DeriveError::InvalidTokens,
    {
        let target_ty = match self.target_ty() {
            Ok(t) => t,
            Err(e) => {
                return Err(e);
            },
        };

        if self.try_from_fn.is_none() && self.from_fn.is_none() {
            let bound = if self.flatten {
                from_row_bound(target_ty.as_str())
            } else {
                from_sql_bound(target_ty.as_str())
            };
            predicates.push(bound);
        }
        if self.from.is_some() {
            predicates.push(from_bound(self.ty.as_str(), target_ty.as_str()));
        } else if self.try_from.is_some() {
            predicates.push(try_from_bound(self.ty.as_str(), target_ty.as_str()));
            predicates.push(try_from_error_bound(self.ty.as_str(), target_ty.as_str()));
            predicates.push(try_from_error_debug_bound(self.ty.as_str(), target_ty.as_str()));
        }
        proof {
            assert(views(predicates@) =~= views(old(predicates)@) + self.spec_predicates());
        }
        Ok(())
    }

    /// The extraction target as it appears in the emitted code: the target
    /// type, or a placeholder left for inference when a conversion function
    /// is used.
    pub open spec fn spec_shape_target(self) -> Seq<char> {
        if self.from_fn is None && self.try_from_fn is None {
            self.spec_target_ty()
        } else {
            "_"@
        }
    }

    /// Whether every piece of text that this field's emitted code is built
    /// from lexes as Rust tokens.
    pub open spec fn init_ok(self) -> bool {
        if self.from_fn is None && self.try_from_fn is None {
            self.target_ty_ok()
        } else if self.from_fn is Some {
            lexes(self.from_fn->Some_0@)
        } else {
            lexes(self.try_from_fn->Some_0@)
        }
    }

    /// The expression that obtains this field's raw value in `from_row`.
    pub open spec fn spec_from_row_base(self) -> Seq<char> {
        if self.flatten {
            "<"@ + self.spec_shape_target() + " as postgres_from_row::FromRow>::from_row(row)"@
        } else {
            "postgres_from_row::tokio_postgres::Row::get::<&str, "@ + self.spec_shape_target()
                + ">(row, \""@ + self.spec_column_name() + "\")"@
        }
    }

    /// The expression that obtains this field's raw value in `try_from_row`.
    pub open spec fn spec_try_from_row_base(self) -> Seq<char> {
        if self.flatten {
            "<"@ + self.spec_shape_target() + " as postgres_from_row::FromRow>::try_from_row(row)?"@
        } else {
            "postgres_from_row::tokio_postgres::Row::try_get::<&str, "@ + self.spec_shape_target()
                + ">(row, \""@ + self.spec_column_name() + "\")?"@
        }
    }

    /// The full initializer expression for this field in `from_row`: the raw
    /// extraction, wrapped in the conversion the directives ask for, with
    /// fallible conversions unwrapped by a panic.
    pub open spec fn spec_from_row_expr(self) -> Seq<char> {
        let base = self.spec_from_row_base();
        if self.from_fn is Some {
            self.from_fn->Some_0@ + "("@ + base + ")"@
        } else if self.try_from_fn is Some {
            self.try_from_fn->Some_0@ + "("@ + base + ").expect(\"could not convert column\")"@
        } else if self.from is Some {
            "<"@ + self.ty@ + " as std::convert::From<"@ + self.spec_target_ty() + ">>::from("@
                + base + ")"@
        } else if self.try_from is Some {
            "<"@ + self.ty@ + " as std::convert::TryFrom<"@ + self.spec_target_ty()
                + ">>::try_from("@ + base + ").expect(\"could not convert column\")"@
        } else {
            base
        }
    }

    /// The full initializer expression for this field in `try_from_row`: the
    /// raw extraction, wrapped in the conversion the directives ask for, with
    /// fallible conversions propagated to the caller.
    pub open spec fn spec_try_from_row_expr(self) -> Seq<char> {
        let base = self.spec_try_from_row_base();
        if self.from_fn is Some {
            self.from_fn->Some_0@ + "("@ + base + ")"@
        } else if self.try_from_fn is Some {
            self.try_from_fn->Some_0@ + "("@ + base + ")?"@
        } else if self.from is Some {
            "<"@ + self.ty@ + " as std::convert::From<"@ + self.spec_target_ty() + ">>::from("@
                + base + ")"@
        } else if self.try_from is Some {
            "<"@ + self.ty@ + " as std::convert::TryFrom<"@ + self.spec_target_ty()
                + ">>::try_from("@ + base + ")?"@
        } else {
            base
        }
    }

    /// This field's initializer in `from_row`, named.
    pub open spec fn spec_from_row_init(self) -> Seq<char> {
        self.ident@ + ": "@ + self.spec_from_row_expr()
    }

    /// This field's initializer in `try_from_row`, named.
    pub open spec fn spec_try_from_row_init(self) -> Seq<char> {
        self.ident@ + ": "@ + self.spec_try_from_row_expr()
    }

    /// Emits the initializer that retrieves this field from a row in
    /// `from_row`.
    pub fn generate_from_row(&self) -> (r: Result<String, DeriveError>)
        ensures
            r is Ok <==> self.init_ok(),
            r is Ok ==> r->Ok_0@ == self.spec_from_row_init(),
            r is Err ==> r->Err_0 == DeriveError::InvalidTokens,
    {
        let target_ty: String = if self.from_fn.is_none() && self.try_from_fn.is_none() {
            match self.target_ty() {
                Ok(t) => t,
                Err(e) => {
                    return Err(e);
                },
            }
        } else {
            "_".to_owned()
        };

        let mut base: String;
        if self.flatten {
            base = "<".to_owned();
            push_str(&mut base, target_ty.as_str());
            push_str(&mut base, " as postgres_from_row::FromRow>::from_row(row)");
        } else {
            base = "postgres_from_row::tokio_postgres::Row::get::<&str, ".to_owned();
            push_str(&mut base, target_ty.as_str());
            push_str(&mut base, ">(row, \"");
            let column_name = self.column_name();
            push_str(&mut base, column_name.as_str());
            push_str(&mut base, "\")");
        }

        let mut expr: String;
        if let Some(from_fn) = &self.from_fn {
            if !lexes_as_tokens(from_fn.as_str()) {
                return Err(DeriveError::InvalidTokens);
            }
            expr = from_fn.clone();
            push_str(&mut expr, "(");
            push_str(&mut expr, base.as_str());
            push_str(&mut expr, ")");
        } else if let Some(try_from_fn) = &self.try_from_fn {
            if !lexes_as_tokens(try_from_fn.as_str()) {
                return Err(DeriveError::InvalidTokens);
            }
            expr = try_from_fn.clone();
            push_str(&mut expr, "(");
            push_str(&mut expr, base.as_str());
            push_str(&mut expr, ").expect(\"could not convert column\")");
        } else if self.from.is_some() {
            expr = "<".to_owned();
            push_str(&mut expr, self.ty.as_str());
            push_str(&mut expr, " as std::convert::From<");
            push_str(&mut expr, target_ty.as_str());
            push_str(&mut expr, ">>::from(");
            push_str(&mut expr, base.as_str());
            push_str(&mut expr, ")");
        } else if self.try_from.is_some() {
            expr = "<".to_owned();
            push_str(&mut expr, self.ty.as_str());
            push_str(&mut expr, " as std::convert::TryFrom<");
            push_str(&mut expr, target_ty.as_str());
            push_str(&mut expr, ">>::try_from(");
            push_str(&mut expr, base.as_str());
            push_str(&mut expr, ").expect(\"could not convert column\")");
        } else {
            expr = base;
        }

        let mut init = self.ident.clone();
        push_str(&mut init, ": ");
        push_str(&mut init, expr.as_str());
        Ok(init)
    }

    /// Emits the initializer that retrieves this field from a row in
    /// `try_from_row`.
    pub fn generate_try_from_row(&self) -> (r: Result<String, DeriveError>)
        ensures
            r is Ok <==> self.init_ok(),
            r is Ok ==> r->Ok_0@ == self.spec_try_from_row_init(),
            r is Err ==> r->Err_0 == DeriveError::InvalidTokens,
    {
        let target_ty: String = if self.from_fn.is_none() && self.try_from_fn.is_none() {
            match self.target_ty() {
                Ok(t) => t,
                Err(e) => {
                    return Err(e);
                },
            }
        } else {
            "_".to_owned()
        };

        let mut base: String;
        if self.flatten {
            base = "<".to_owned();
            push_str(&mut base, target_ty.as_str());
            push_str(&mut base, " as postgres_from_row::FromRow>::try_from_row(row)?");
        } else {
            base = "postgres_from_row::tokio_postgres::Row::try_get::<&str, ".to_owned();
            push_str(&mut base, target_ty.as_str());
            push_str(&mut base, ">(row, \"");
            let column_name = self.column_name();
            push_str(&mut base, column_name.as_str());
            push_str(&mut base, "\")?");
        }

        let mut expr: String;
        if let Some(from_fn) = &self.from_fn {
            if !lexes_as_tokens(from_fn.as_str()) {
                return Err(DeriveError::InvalidTokens);
            }
            expr = from_fn.clone();
            push_str(&mut expr, "(");
            push_str(&mut expr, base.as_str());
            push_str(&mut expr, ")");
        } else if let Some(try_from_fn) = &self.try_from_fn {
            if !lexes_as_tokens(try_from_fn.as_str()) {
                return Err(DeriveError::InvalidTokens);
            }
            expr = try_from_fn.clone();
            push_str(&mut expr, "(");
            push_str(&mut expr, base.as_str());
            push_str(&mut expr, ")?");
        } else if self.from.is_some() {
            expr = "<".to_owned();
            push_str(&mut expr, self.ty.as_str());
            push_str(&mut expr, " as std::convert::From<");
            push_str(&mut expr, target_ty.as_str());
            push_str(&mut expr, ">>::from(");
            push_str(&mut expr, base.as_str());
            push_str(&mut expr, ")");
        } else if self.try_from.is_some() {
            expr = "<".to_owned();
            push_str(&mut expr, self.ty.as_str());
            push_str(&mut expr, " as std::convert::TryFrom<");
            push_str(&mut expr, target_ty.as_str());
            push_str(&mut expr, ">>::try_from(");
            push_str(&mut expr, base.as_str());
            push_str(&mut expr, ")?");
        } else {
            expr = base;
        }

        let mut init = self.ident.clone();
        push_str(&mut init, ": ");
        push_str(&mut init, expr.as_str());
        Ok(init)
    }
}

} // verus!
