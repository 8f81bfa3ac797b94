//! The whole struct declaration and the `FromRow` implementation planned
//! for it.

use crate::error::DeriveError;
use crate::field::FromRowField;
use crate::text::append_cloned;
use crate::text::push_join;
use crate::text::push_str;
use crate::text::spec_join;
use crate::text::views;
use vstd::prelude::*;

verus! {

/// A struct declaration that derives `FromRow`: its name, the rendered
/// projections of its generic parameters, the predicates of its own where
/// clause, and its fields in declaration order.
pub struct DeriveFromRow {
    /// The name of the struct.
    pub ident: String,
    /// The generic parameters as they stand on the emitted `impl`, with
    /// their bounds, e.g. `<T: Clone>`; empty for a non-generic struct.
    pub impl_generics: String,
    /// The generic arguments as they stand after the struct's name,
    /// e.g. `<T>`; empty for a non-generic struct.
    pub ty_generics: String,
    /// The predicates of the struct's own where clause, one rendered
    /// predicate each.
    pub original_predicates: Vec<String>,
    /// The fields of the struct, in declaration order.
    pub fields: Vec<FromRowField>,
}

/// The first invalid combination of directives among `fields`, if any.
pub open spec fn spec_first_attr_error(fields: Seq<FromRowField>) -> Option<DeriveError>
    decreases fields.len(),
{
    if fields.len() == 0 {
        None
    } else if fields[0].attr_error() is Some {
        fields[0].attr_error()
    } else {
        spec_first_attr_error(fields.drop_first())
    }
}

/// The where-clause predicates of all fields, in field order.
pub open spec fn spec_all_predicates(fields: Seq<FromRowField>) -> Seq<Seq<char>>
    decreases fields.len(),
{
    if fields.len() == 0 {
        Seq::empty()
    } else {
        spec_all_predicates(fields.drop_last()) + fields.last().spec_predicates()
    }
}

/// The `from_row` initializers of all fields, in field order.
pub open spec fn spec_from_row_inits(fields: Seq<FromRowField>) -> Seq<Seq<char>>
    decreases fields.len(),
{
    if fields.len() == 0 {
        Seq::empty()
    } else {
        spec_from_row_inits(fields.drop_last()).push(fields.last().spec_from_row_init())
    }
}

/// The `try_from_row` initializers of all fields, in field order.
pub open spec fn spec_try_from_row_inits(fields: Seq<FromRowField>) -> Seq<Seq<char>>
    decreases fields.len(),
{
    if fields.len() == 0 {
        Seq::empty()
    } else {
        spec_try_from_row_inits(fields.drop_last()).push(fields.last().spec_try_from_row_init())
    }
}

/// Whether every piece of attribute text that the implementation is built
/// from lexes as Rust tokens.
pub open spec fn spec_tokens_ok(fields: Seq<FromRowField>) -> bool {
    &&& forall|i: int| 0 <= i < fields.len() ==> #[trigger] fields[i].target_ty_ok()
    &&& forall|i: int| 0 <= i < fields.len() ==> #[trigger] fields[i].init_ok()
}

/// The first error that planning the implementation for `d` reports, if
/// any: an invalid combination of directives on a field, else an attribute
/// value that does not lex as Rust tokens.
pub open spec fn spec_generate_error(d: DeriveFromRow) -> Option<DeriveError> {
    if spec_first_attr_error(d.fields@) is Some {
        spec_first_attr_error(d.fields@)
    } else if !spec_tokens_ok(d.fields@) {
        Some(DeriveError::InvalidTokens)
    } else {
        None
    }
}

/// The complete `FromRow` implementation for `d`, as source text: the
/// `impl` header with the struct's own and the fields' where-clause
/// predicates, a `from_row` that panics on absent columns or failed
/// conversions, and a `try_from_row` that propagates them.
pub open spec fn spec_generate(d: DeriveFromRow) -> Seq<char> {
    "impl "@ + d.impl_generics@ + " postgres_from_row::FromRow for "@ + d.ident@ + d.ty_generics@
        + " where "@ + spec_join(
        views(d.original_predicates@) + spec_all_predicates(d.fields@),
        ", "@,
    ) + " { fn from_row(row: &postgres_from_row::tokio_postgres::Row) -> Self { Self { "@
        + spec_join(spec_from_row_inits(d.fields@), ", "@)
        + " } } fn try_from_row(row: &postgres_from_row::tokio_postgres::Row) -> std::result::Result<Self, postgres_from_row::tokio_postgres::Error> { Ok(Self { "@
        + spec_join(spec_try_from_row_inits(d.fields@), ", "@) + " }) } }"@
}

impl DeriveFromRow {
    /// Validates all fields.
    pub fn validate(&self) -> (r: Result<(), DeriveError>)
        ensures
            r is Ok <==> spec_first_attr_error(self.fields@) is None,
            r is Err ==> Some(r->Err_0) == spec_first_attr_error(self.fields@),
    {
        let mut i: usize = 0;
        proof {
            assert(self.fields@.skip(0) =~= self.fields@);
        }
        while i < self.fields.len()
            invariant
                i <= self.fields@.len(),
                spec_first_attr_error(self.fields@) == spec_first_attr_error(
                    self.fields@.skip(i as int),
                ),
            decreases self.fields@.len() - i,
        {
            let ghost rest = self.fields@.skip(i as int);
            proof {
                assert(rest[0] == self.fields@[i as int]);
                assert(rest.drop_first() =~= self.fields@.skip(i + 1));
            }
            match self.fields[i].validate() {
                Ok(()) => {},
                Err(e) => {
                    return Err(e);
                },
            }
            i += 1;
        }
        proof {
            assert(self.fields@.skip(self.fields@.len() as int) =~= Seq::<FromRowField>::empty());
        }
        Ok(())
    }

    /// Generates the additional where-clause predicates needed for the
    /// fields of this struct.
    pub fn predicates(&self) -> (r: Result<Vec<String>, DeriveError>)
        ensures
            r is Ok <==> forall|i: int|
                0 <= i < self.fields@.len() ==> #[trigger] self.fields@[i].target_ty_ok(),
            r is Ok ==> views(r->Ok_0@) == spec_all_predicates(self.fields@),
            r is Err ==> r->Err_0 == DeriveError::InvalidTokens,
    {
        let mut predicates: Vec<String> = Vec::new();
        proof {
            assert(views(predicates@) =~= spec_all_predicates(self.fields@.take(0)));
        }
        let mut i: usize = 0;
        while i < self.fields.len()
            invariant
                i <= self.fields@.len(),
                views(predicates@) == spec_all_predicates(self.fields@.take(i as int)),
                forall|j: int| 0 <= j < i ==> #[trigger] self.fields@[j].target_ty_ok(),
            decreases self.fields@.len() - i,
        {
            match self.fields[i].add_predicates(&mut predicates) {
                Ok(()) => {},
                Err(e) => {
                    return Err(e);
                },
            }
            proof {
                assert(self.fields@.take(i + 1).drop_last() =~= self.fields@.take(i as int));
            }
            i += 1;
        }
        proof {
            assert(self.fields@.take(self.fields@.len() as int) =~= self.fields@);
        }
        Ok(predicates)
    }

    /// Provides the fields of this struct.
    pub fn fields(&self) -> (r: &Vec<FromRowField>)
        ensures
            r@ == self.fields@,
    {
        &self.fields
    }

    /// Generates the `FromRow` implementation: validates the fields,
    /// collects the where-clause predicates, and renders the implementation
    /// with both conversions.
    pub fn generate(self) -> (r: Result<String, DeriveError>)
        ensures
            r is Ok <==> spec_generate_error(self) is None,
            r is Ok ==> r->Ok_0@ == spec_generate(self),
            r is Err ==> Some(r->Err_0) == spec_generate_error(self),
    {
        match self.validate() {
            Ok(()) => {},
            Err(e) => {
                return Err(e);
            },
        }

        let mut generated = match self.predicates() {
            Ok(p) => p,
            Err(e) => {
                return Err(e);
            },
        };

        let mut from_row_inits: Vec<String> = Vec::new();
        proof {
            assert(views(from_row_inits@) =~= spec_from_row_inits(self.fields@.take(0)));
        }
        let mut i: usize = 0;
        while i < self.fields.len()
            invariant
                i <= self.fields@.len(),
                views(from_row_inits@) == spec_from_row_inits(self.fields@.take(i as int)),
                forall|j: int| 0 <= j < i ==> #[trigger] self.fields@[j].init_ok(),
                spec_first_attr_error(self.fields@) is None,
                forall|j: int|
                    0 <= j < self.fields@.len() ==> #[trigger] self.fields@[j].target_ty_ok(),
            decreases self.fields@.len() - i,
        {
            match self.fields[i].generate_from_row() {
                Ok(init) => {
                    from_row_inits.push(init);
                },
                Err(e) => {
                    proof {
                        assert(!self.fields@[i as int].init_ok());
                        assert(!spec_tokens_ok(self.fields@));
                    }
                    return Err(e);
                },
            }
            proof {
                assert(self.fields@.take(i + 1).drop_last() =~= self.fields@.take(i as int));
                assert(views(from_row_inits@) =~= spec_from_row_inits(self.fields@.take(i + 1)));
            }
            i += 1;
        }
        proof {
            assert(self.fields@.take(self.fields@.len() as int) =~= self.fields@);
        }

        let mut try_from_row_inits: Vec<String> = Vec::new();
        proof {
            assert(views(try_from_row_inits@) =~= spec_try_from_row_inits(self.fields@.take(0)));
        }
        let mut i: usize = 0;
        while i < self.fields.len()
            invariant
                i <= self.fields@.len(),
                views(try_from_row_inits@) == spec_try_from_row_inits(self.fields@.take(i as int)),
                spec_first_attr_error(self.fields@) is None,
                forall|j: int|
                    0 <= j < self.fields@.len() ==> #[trigger] self.fields@[j].target_ty_ok(),
                forall|j: int| 0 <= j < self.fields@.len() ==> #[trigger] self.fields@[j].init_ok(),
            decreases self.fields@.len() - i,
        {
            match self.fields[i].generate_try_from_row() {
                Ok(init) => {
                    try_from_row_inits.push(init);
                },
                Err(e) => {
                    proof {
                        assert(!self.fields@[i as int].init_ok());
                        assert(!spec_tokens_ok(self.fields@));
                    }
                    return Err(e);
                },
            }
            proof {
                assert(self.fields@.take(i + 1).drop_last() =~= self.fields@.take(i as int));
                assert(views(try_from_row_inits@) =~= spec_try_from_row_inits(
                    self.fields@.take(i + 1),
                ));
            }
            i += 1;
        }
        proof {
            assert(self.fields@.take(self.fields@.len() as int) =~= self.fields@);
        }

        let mut where_items: Vec<String> = Vec::new();
        append_cloned(&mut where_items, &self.original_predicates);
        where_items.append(&mut generated);
        proof {
            assert(views(where_items@) =~= views(self.original_predicates@) + spec_all_predicates(
                self.fields@,
            ));
        }

        let mut out = "impl ".to_owned();
        push_str(&mut out, self.impl_generics.as_str());
        push_str(&mut out, " postgres_from_row::FromRow for ");
        push_str(&mut out, self.ident.as_str());
        push_str(&mut out, self.ty_generics.as_str());
        push_str(&mut out, " where ");
        push_join(&mut out, &where_items, ", ");
        push_str(
            &mut out,
            " { fn from_row(row: &postgres_from_row::tokio_postgres::Row) -> Self { Self { ",
        );
        push_join(&mut out, &from_row_inits, ", ");
        push_str(
            &mut out,
            " } } fn try_from_row(row: &postgres_from_row::tokio_postgres::Row) -> std::result::Result<Self, postgres_from_row::tokio_postgres::Error> { Ok(Self { ",
        );
        push_join(&mut out, &try_from_row_inits, ", ");
        push_str(&mut out, " }) } }");
        Ok(out)
    }
}

} // verus!
