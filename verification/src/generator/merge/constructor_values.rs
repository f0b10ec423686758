//! The values that the fields of a metadata extension are initialized with.

use vstd::prelude::*;
use crate::generator::source_parser::ExtensionKind;
use crate::generator::tree::{is_text, Expr, ExprView, Field};
use crate::{Metadata, MetadataView, Standard};

verus! {

/// The literal `0`, the value of a field that nothing else is known of.
pub open spec fn zero_literal() -> ExprView {
    ExprView::Int("0"@)
}

/// An optional text as an expression: `Some` of a string literal, or `None`.
pub open spec fn optional_text(text: Option<Seq<char>>) -> ExprView {
    match text {
        Some(t) => ExprView::SomeStr(t),
        None => ExprView::Nothing,
    }
}

/// The value that a metadata extension's field is initialized with. The
/// fields `name` and `symbol` get the text of that name out of the
/// metadata, `decimals` gets its number, or `0` without one, and any other
/// field gets `0`. For an extension of another kind the value is `0`.
pub open spec fn metadata_field_value(
    kind: ExtensionKind,
    field_name: Seq<char>,
    metadata: Option<MetadataView>,
) -> ExprView {
    if kind != ExtensionKind::Metadata {
        zero_literal()
    } else if field_name == "name"@ {
        optional_text(
            match metadata {
                Some(m) => m.name,
                None => None,
            },
        )
    } else if field_name == "symbol"@ {
        optional_text(
            match metadata {
                Some(m) => m.symbol,
                None => None,
            },
        )
    } else if field_name == "decimals"@ {
        match metadata {
            Some(MetadataView { decimals: Some(n), .. }) => ExprView::Byte(n),
            _ => zero_literal(),
        }
    } else {
        zero_literal()
    }
}

/// Builds the literal `0`.
fn zero() -> (expr: Expr)
    ensures
        expr@ == zero_literal(),
{
    Expr::Int(String::from_str("0"))
}

/// Builds `Some` of a string literal, or `None`.
fn wrap_text(text: &Option<String>) -> (expr: Expr)
    ensures
        expr@ == optional_text(text.deep_view()),
{
    match text {
        Some(t) => Expr::SomeStr(t.clone()),
        None => Expr::Nothing,
    }
}

/// The value that a field of a metadata extension is initialized with.
pub fn produce_psp22_metadata_field_expr(
    extension_kind: &ExtensionKind,
    field: &Field,
    metadata_opt: &Option<Metadata>,
) -> (expr: Expr)
    ensures
        expr@ == metadata_field_value(*extension_kind, field@.name, metadata_opt.deep_view()),
{
    match extension_kind {
        ExtensionKind::Metadata => {
            if is_text(&field.name, "name") {
                match metadata_opt {
                    Some(m) => wrap_text(&m.name),
                    None => Expr::Nothing,
                }
            } else if is_text(&field.name, "symbol") {
                match metadata_opt {
                    Some(m) => wrap_text(&m.symbol),
                    None => Expr::Nothing,
                }
            } else if is_text(&field.name, "decimals") {
                match metadata_opt {
                    Some(m) => match m.decimals {
                        Some(n) => Expr::Byte(n),
                        None => zero(),
                    },
                    None => zero(),
                }
            } else {
                zero()
            }
        },
        _ => zero(),
    }
}

/// The value that a field of a metadata extension is initialized with,
/// for a contract of the given standard. Both standards read the same
/// names out of the metadata.
pub fn produce_metadata_field_expr(
    extension_kind: &ExtensionKind,
    standard: Standard,
    field: &Field,
    metadata_opt: &Option<Metadata>,
) -> (expr: Expr)
    ensures
        expr@ == metadata_field_value(*extension_kind, field@.name, metadata_opt.deep_view()),
{
    match standard {
        Standard::PSP22 => produce_psp22_metadata_field_expr(extension_kind, field, metadata_opt),
        Standard::PSP34 => produce_psp22_metadata_field_expr(extension_kind, field, metadata_opt),
    }
}

} // verus!
