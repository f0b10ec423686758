//! Navigation over the tree: finding declarations, methods and attributes,
//! reading a directive's line number, and splicing statements into a body.

use vstd::prelude::*;
use crate::generator::merge::errors::MergeError;
use crate::generator::search::{
    first_index, last_index, lemma_first_index_is, lemma_first_index_none, lemma_last_index_is,
    lemma_last_index_none, position, positions,
};
use crate::generator::tree::{
    same_text, Attribute, AttributeView, Expr, ExprView, Field, FieldInit, FieldInitView,
    ImplBlock, ImplBlockView, Method, MethodView, Module, Param,
    ParamView, Statement, Declaration, DeclarationView,
};

verus! {

/// Attribute equality: the tags are the same and, where both attributes
/// carry a payload, the payloads are the same too.
pub open spec fn attribute_matches(attr: AttributeView, target: AttributeView) -> bool {
    attr.tag == target.tag && (attr.payload is Some && target.payload is Some ==> attr.payload
        == target.payload)
}

/// The property of being equal to `target` as an attribute.
pub open spec fn matching(target: AttributeView) -> spec_fn(AttributeView) -> bool {
    |attr: AttributeView| attribute_matches(attr, target)
}

/// The property of being equal to `target` and carrying a payload.
pub open spec fn matching_with_payload(target: AttributeView) -> spec_fn(AttributeView) -> bool {
    |attr: AttributeView| attribute_matches(attr, target) && attr.payload is Some
}

/// Whether some attribute of the list is equal to `target`.
pub open spec fn has_attribute(attrs: Seq<AttributeView>, target: AttributeView) -> bool {
    first_index(attrs, matching(target)) is Some
}

/// The payload of the first attribute of the list that is equal to `target`
/// and carries one.
pub open spec fn attribute_payload(attrs: Seq<AttributeView>, target: AttributeView) -> Option<
    ExprView,
> {
    match first_index(attrs, matching_with_payload(target)) {
        Some(i) => attrs[i].payload,
        None => None,
    }
}

/// Compares two attributes by tag and, where both have one, by payload.
pub fn compare_attributes(input_fragment: &Attribute, compare_target: &Attribute) -> (equal: bool)
    ensures
        equal == attribute_matches(input_fragment@, compare_target@),
{
    if !same_text(&input_fragment.tag, &compare_target.tag) {
        return false;
    }
    match (&input_fragment.payload, &compare_target.payload) {
        (Some(a), Some(b)) => a.same(b),
        _ => true,
    }
}

/// The position of the first attribute equal to `searched_attribute`.
pub fn find_attribute(attributes: &Vec<Attribute>, searched_attribute: &Attribute) -> (found:
    Option<usize>)
    ensures
        position(found) == first_index(attributes.deep_view(), matching(searched_attribute@)),
        match found {
            Some(i) => i < attributes.len(),
            None => true,
        },
{
    let ghost views = attributes.deep_view();
    let ghost wanted = matching(searched_attribute@);
    let mut i: usize = 0;
    while i < attributes.len()
        invariant
            0 <= i <= attributes.len(),
            views == attributes.deep_view(),
            wanted == matching(searched_attribute@),
            forall|j: int| 0 <= j < i ==> !wanted(#[trigger] views[j]),
        decreases attributes.len() - i,
    {
        if compare_attributes(&attributes[i], searched_attribute) {
            proof {
                lemma_first_index_is(views, wanted, i as int);
            }
            return Some(i);
        }
        i += 1;
    }
    proof {
        lemma_first_index_none(views, wanted);
    }
    None
}

/// The payload of the first attribute that is equal to `searched_attribute`
/// and carries a payload.
pub fn extract_attribute_expression(attrs: &Vec<Attribute>, searched_attribute: &Attribute) -> (payload:
    Option<Expr>)
    ensures
        payload.deep_view() == attribute_payload(attrs.deep_view(), searched_attribute@),
{
    let ghost views = attrs.deep_view();
    let ghost wanted = matching_with_payload(searched_attribute@);
    let mut i: usize = 0;
    while i < attrs.len()
        invariant
            0 <= i <= attrs.len(),
            views == attrs.deep_view(),
            wanted == matching_with_payload(searched_attribute@),
            forall|j: int| 0 <= j < i ==> !wanted(#[trigger] views[j]),
        decreases attrs.len() - i,
    {
        if compare_attributes(&attrs[i], searched_attribute) {
            match &attrs[i].payload {
                Some(e) => {
                    proof {
                        lemma_first_index_is(views, wanted, i as int);
                    }
                    return Some(e.clone());
                },
                None => {},
            }
        }
        i += 1;
    }
    proof {
        lemma_first_index_none(views, wanted);
    }
    None
}

/// Whether `c` is one of the decimal digits `0` to `9`.
pub open spec fn is_decimal_digit(c: char) -> bool {
    48 <= c as u32 <= 57
}

/// The number that a sequence of decimal digits writes, most significant
/// digit first.
pub open spec fn decimal_value(digits: Seq<char>) -> nat
    decreases digits.len(),
{
    if digits.len() == 0 {
        0
    } else {
        decimal_value(digits.drop_last()) * 10 + (digits.last() as u32 - 48) as nat
    }
}

/// Whether `digits` is a non-empty sequence of decimal digits.
pub open spec fn is_decimal(digits: Seq<char>) -> bool {
    digits.len() > 0 && forall|i: int| 0 <= i < digits.len() ==> is_decimal_digit(#[trigger] digits[i])
}

/// The line number that a directive's payload gives: the payload must be an
/// assignment of a decimal integer literal that fits the machine word.
pub open spec fn line_number(expr: ExprView) -> Option<nat> {
    match expr {
        ExprView::AssignInt { target, digits } => if is_decimal(digits) && decimal_value(digits)
            <= usize::MAX {
            Some(decimal_value(digits))
        } else {
            None
        },
        _ => None,
    }
}

/// A prefix of a digit sequence writes a number that is not greater than
/// the number the whole sequence writes.
pub proof fn lemma_decimal_value_monotonic(digits: Seq<char>, n: int)
    requires
        0 <= n <= digits.len(),
        forall|i: int| 0 <= i < digits.len() ==> is_decimal_digit(#[trigger] digits[i]),
    ensures
        decimal_value(digits.take(n)) <= decimal_value(digits),
    decreases digits.len() - n,
{
    if n == digits.len() {
        assert(digits.take(n) =~= digits);
    } else {
        lemma_decimal_value_monotonic(digits, n + 1);
        let longer = digits.take(n + 1);
        assert(longer.drop_last() =~= digits.take(n));
        assert(is_decimal_digit(digits[n]));
        assert(longer.last() == digits[n]);
    }
}

/// Reads the line number out of a directive's payload.
pub fn parse_expr_as_number(attr_expr: &Expr) -> (line: Result<usize, MergeError>)
    ensures
        match line {
            Ok(n) => line_number(attr_expr@) == Some(n as nat),
            Err(e) => e == MergeError::MalformedAttribute && line_number(attr_expr@) is None,
        },
{
    match attr_expr {
        Expr::AssignInt { target, digits } => {
            let text = digits.as_str();
            let len = text.unicode_len();
            if len == 0 {
                return Err(MergeError::MalformedAttribute);
            }
            let mut value: usize = 0;
            let mut i: usize = 0;
            while i < len
                invariant
                    0 <= i <= len,
                    len == text@.len(),
                    text@ == digits@,
                    attr_expr@ == (ExprView::AssignInt { target: target@, digits: digits@ }),
                    forall|j: int| 0 <= j < i ==> is_decimal_digit(#[trigger] text@[j]),
                    value == decimal_value(text@.take(i as int)),
                decreases len - i,
            {
                let c = text.get_char(i);
                let code = c as u32;
                if code < 48 || code > 57 {
                    assert(!is_decimal_digit(text@[i as int]));
                    return Err(MergeError::MalformedAttribute);
                }
                let digit = (code - 48) as usize;
                proof {
                    assert(text@.take(i as int + 1).drop_last() =~= text@.take(i as int));
                    assert(text@.take(i as int + 1).last() == c);
                }
                if value > (usize::MAX - digit) / 10 {
                    proof {
                        if is_decimal(text@) {
                            lemma_decimal_value_monotonic(text@, i as int + 1);
                        }
                    }
                    return Err(MergeError::MalformedAttribute);
                }
                value = value * 10 + digit;
                i += 1;
            }
            proof {
                assert(text@.take(len as int) =~= text@);
            }
            Ok(value)
        },
        _ => Err(MergeError::MalformedAttribute),
    }
}

/// `source` put into `body` in one piece, in front of the statement at index
/// `line`, or at the end where `body` has no such statement.
pub open spec fn splice_at<T>(body: Seq<T>, source: Seq<T>, line: int) -> Seq<T> {
    let at = if line >= body.len() {
        body.len() as int
    } else {
        line
    };
    body.subrange(0, at) + source + body.subrange(at, body.len() as int)
}

/// Appends copies of the statements of `source` to `out`.
fn append_statements(out: &mut Vec<Statement>, source: &Vec<Statement>)
    ensures
        final(out).deep_view() == old(out).deep_view() + source.deep_view(),
{
    let ghost before = out.deep_view();
    let mut i: usize = 0;
    while i < source.len()
        invariant
            0 <= i <= source.len(),
            out.deep_view() == before + source.deep_view().take(i as int),
        decreases source.len() - i,
    {
        let ghost prior = out.deep_view();
        out.push(source[i].clone());
        proof {
            assert(out.deep_view() =~= prior.push(source[i as int]@));
            assert(source.deep_view().take(i as int + 1) =~= source.deep_view().take(i as int).push(
                source[i as int]@,
            ));
            assert(out.deep_view() =~= before + source.deep_view().take(i as int + 1));
        }
        i += 1;
    }
    assert(source.deep_view().take(i as int) =~= source.deep_view());
}

/// Splices the statements of `source_block` into the body of `f_target` at
/// `start_index`; nothing else of the method changes.
pub fn merge_fn_with_start_index(
    f_target: &mut Method,
    source_block: &Vec<Statement>,
    start_index: usize,
)
    ensures
        final(f_target)@ == (MethodView {
            body: splice_at(old(f_target)@.body, source_block.deep_view(), start_index as int),
            ..old(f_target)@
        }),
{
    let ghost before = f_target.body.deep_view();
    let ghost source = source_block.deep_view();
    if start_index >= f_target.body.len() {
        append_statements(&mut f_target.body, source_block);
        proof {
            lemma_splice_past_end(before, source, start_index as int);
        }
    } else {
        let mut idx: usize = 0;
        while idx < source_block.len()
            invariant
                0 <= idx <= source_block.len(),
                start_index < before.len(),
                f_target.body.len() == before.len() + idx,
                source == source_block.deep_view(),
                f_target@ == (MethodView { body: f_target.body.deep_view(), ..old(f_target)@ }),
                f_target.body.deep_view() == before.subrange(0, start_index as int) + source.take(
                    idx as int,
                ) + before.subrange(start_index as int, before.len() as int),
            decreases source_block.len() - idx,
        {
            let ghost current = f_target.body.deep_view();
            f_target.body.insert(idx + start_index, source_block[idx].clone());
            proof {
                assert(f_target.body.deep_view() =~= current.insert(
                    idx + start_index,
                    source[idx as int],
                ));
                assert(f_target.body.deep_view() =~= before.subrange(0, start_index as int)
                    + source.take(idx as int + 1) + before.subrange(
                    start_index as int,
                    before.len() as int,
                ));
            }
            idx += 1;
        }
        proof {
            assert(source.take(idx as int) =~= source);
        }
    }
}

/// Replaces the body of `f_target` by a copy of `source_block`; the name,
/// the parameters, the return type and the attributes stay.
pub fn replace_fn_body(f_target: &mut Method, source_block: &Vec<Statement>)
    ensures
        final(f_target)@ == (MethodView { body: source_block.deep_view(), ..old(f_target)@ }),
{
    let body = source_block.clone();
    assert(body.deep_view() =~= source_block.deep_view());
    f_target.body = body;
}

/// A position at or past the end of the body splices exactly as the
/// position of the end does.
pub proof fn lemma_splice_past_end<T>(body: Seq<T>, source: Seq<T>, line: int)
    requires
        line >= body.len(),
    ensures
        splice_at(body, source, line) == splice_at(body, source, body.len() as int),
        splice_at(body, source, line) == body + source,
{
    assert(body.subrange(0, body.len() as int) =~= body);
    assert(splice_at(body, source, line) =~= body + source);
}

/// Splicing keeps every statement of the body and of the source, in order:
/// the body's first `line` statements, then the source, then the rest.
pub proof fn lemma_splice_shape<T>(body: Seq<T>, source: Seq<T>, line: int)
    requires
        0 <= line,
    ensures
        splice_at(body, source, line).len() == body.len() + source.len(),
        forall|i: int|
            0 <= i < line && i < body.len() ==> splice_at(body, source, line)[i] == body[i],
        forall|i: int|
            0 <= i < source.len() ==> splice_at(body, source, line)[if line >= body.len() {
                body.len() + i
            } else {
                line + i
            }] == source[i],
        forall|i: int|
            line <= i < body.len() ==> splice_at(body, source, line)[i + source.len()] == body[i],
{
}

/// The property of being a method named `name`.
pub open spec fn named(name: Seq<char>) -> spec_fn(MethodView) -> bool {
    |method: MethodView| method.name == name
}

/// The property of being a method with an attribute equal to `target`.
pub open spec fn method_tagged(target: AttributeView) -> spec_fn(MethodView) -> bool {
    |method: MethodView| has_attribute(method.attrs, target)
}

/// The name an implementation block is known by: the trait it implements,
/// or its receiver type where it implements none.
pub open spec fn impl_identity(block: ImplBlockView) -> Seq<char> {
    match block.trait_name {
        Some(name) => name,
        None => block.self_ty,
    }
}

/// The property of being a declaration of any implementation block.
pub open spec fn is_impl() -> spec_fn(DeclarationView) -> bool {
    |declaration: DeclarationView| declaration is Impl
}

/// The property of being an implementation block known by `name`.
pub open spec fn impl_named(name: Seq<char>) -> spec_fn(DeclarationView) -> bool {
    |declaration: DeclarationView|
        match declaration {
            DeclarationView::Impl(block) => impl_identity(block) == name,
            _ => false,
        }
}

/// The property of being a struct with an attribute equal to `target`.
pub open spec fn struct_tagged(target: AttributeView) -> spec_fn(DeclarationView) -> bool {
    |declaration: DeclarationView|
        match declaration {
            DeclarationView::Struct(item) => has_attribute(item.attrs, target),
            _ => false,
        }
}

/// The position of the last method of the block named `ident`: a later
/// method of the same name shadows an earlier one.
pub fn extract_fn_by_ident(target_impl_block: &ImplBlock, ident: &String) -> (found: Option<usize>)
    ensures
        position(found) == last_index(target_impl_block@.methods, named(ident@)),
        match found {
            Some(i) => i < target_impl_block.methods.len(),
            None => true,
        },
{
    let ghost views = target_impl_block.methods.deep_view();
    let ghost wanted = named(ident@);
    let mut i: usize = target_impl_block.methods.len();
    while i > 0
        invariant
            0 <= i <= target_impl_block.methods.len(),
            views == target_impl_block.methods.deep_view(),
            wanted == named(ident@),
            forall|j: int| i <= j < views.len() ==> !wanted(#[trigger] views[j]),
        decreases i,
    {
        i -= 1;
        if same_text(&target_impl_block.methods[i].name, ident) {
            proof {
                lemma_last_index_is(views, wanted, i as int);
            }
            return Some(i);
        }
    }
    proof {
        lemma_last_index_none(views, wanted);
    }
    None
}

/// The position of the first method of the block that has an attribute
/// equal to `searched_attribute`.
pub fn extract_fn_implementation_by_attr(impl_block: &ImplBlock, searched_attribute: &Attribute) -> (found:
    Option<usize>)
    ensures
        position(found) == first_index(impl_block@.methods, method_tagged(searched_attribute@)),
        match found {
            Some(i) => i < impl_block.methods.len(),
            None => true,
        },
{
    let ghost views = impl_block.methods.deep_view();
    let ghost wanted = method_tagged(searched_attribute@);
    let mut i: usize = 0;
    while i < impl_block.methods.len()
        invariant
            0 <= i <= impl_block.methods.len(),
            views == impl_block.methods.deep_view(),
            wanted == method_tagged(searched_attribute@),
            forall|j: int| 0 <= j < i ==> !wanted(#[trigger] views[j]),
        decreases impl_block.methods.len() - i,
    {
        if find_attribute(&impl_block.methods[i].attrs, searched_attribute).is_some() {
            proof {
                lemma_first_index_is(views, wanted, i as int);
            }
            return Some(i);
        }
        i += 1;
    }
    proof {
        lemma_first_index_none(views, wanted);
    }
    None
}

/// The name an implementation block is known by.
pub fn get_ident_from_impl_block(impl_block: &ImplBlock) -> (ident: &String)
    ensures
        ident@ == impl_identity(impl_block@),
{
    match &impl_block.trait_name {
        Some(name) => name,
        None => &impl_block.self_ty,
    }
}

/// The position of the first struct of the module that has an attribute
/// equal to `attr`.
pub fn find_struct_by_attr(root_mod: &Module, attr: &Attribute) -> (found: Option<usize>)
    ensures
        position(found) == first_index(root_mod@.declarations, struct_tagged(attr@)),
        match found {
            Some(i) => i < root_mod.declarations.len() && root_mod.declarations[i as int] is Struct,
            None => true,
        },
{
    let ghost views = root_mod.declarations.deep_view();
    let ghost wanted = struct_tagged(attr@);
    let mut i: usize = 0;
    while i < root_mod.declarations.len()
        invariant
            0 <= i <= root_mod.declarations.len(),
            views == root_mod.declarations.deep_view(),
            wanted == struct_tagged(attr@),
            forall|j: int| 0 <= j < i ==> !wanted(#[trigger] views[j]),
        decreases root_mod.declarations.len() - i,
    {
        match &root_mod.declarations[i] {
            Declaration::Struct(item) => {
                if find_attribute(&item.attrs, attr).is_some() {
                    proof {
                        lemma_first_index_is(views, wanted, i as int);
                    }
                    return Some(i);
                }
            },
            _ => {},
        }
        i += 1;
    }
    proof {
        lemma_first_index_none(views, wanted);
    }
    None
}

/// The positions of all implementation blocks of the module, in order.
pub fn extract_impl_blocks(root_mod: &Module) -> (found: Vec<usize>)
    ensures
        found@.map_values(|i: usize| i as int) == positions(root_mod@.declarations, is_impl()),
        forall|k: int|
            0 <= k < found.len() ==> #[trigger] found[k] < root_mod.declarations.len()
                && root_mod.declarations[found[k] as int] is Impl,
{
    let ghost views = root_mod.declarations.deep_view();
    let mut found: Vec<usize> = Vec::new();
    let mut i: usize = 0;
    assert(views.take(0) =~= Seq::<DeclarationView>::empty());
    while i < root_mod.declarations.len()
        invariant
            0 <= i <= root_mod.declarations.len(),
            views == root_mod.declarations.deep_view(),
            found@.map_values(|i: usize| i as int) =~= positions(views.take(i as int), is_impl()),
            forall|k: int|
                0 <= k < found.len() ==> #[trigger] found[k] < root_mod.declarations.len()
                    && root_mod.declarations[found[k] as int] is Impl,
        decreases root_mod.declarations.len() - i,
    {
        proof {
            assert(views.take(i as int + 1).drop_last() =~= views.take(i as int));
            assert(views.take(i as int + 1).last() == views[i as int]);
        }
        match &root_mod.declarations[i] {
            Declaration::Impl(_) => {
                found.push(i);
            },
            _ => {},
        }
        i += 1;
    }
    proof {
        assert(views.take(i as int) =~= views);
    }
    found
}

/// The position of the last implementation block of the module known by
/// `ident`: a later block of the same name shadows an earlier one.
pub fn extract_impl_by_ident(root_mod: &Module, ident: &String) -> (found: Option<usize>)
    ensures
        position(found) == last_index(root_mod@.declarations, impl_named(ident@)),
        match found {
            Some(i) => i < root_mod.declarations.len() && root_mod.declarations[i as int] is Impl,
            None => true,
        },
{
    let ghost views = root_mod.declarations.deep_view();
    let ghost wanted = impl_named(ident@);
    let mut i: usize = root_mod.declarations.len();
    while i > 0
        invariant
            0 <= i <= root_mod.declarations.len(),
            views == root_mod.declarations.deep_view(),
            wanted == impl_named(ident@),
            forall|j: int| i <= j < views.len() ==> !wanted(#[trigger] views[j]),
        decreases i,
    {
        i -= 1;
        match &root_mod.declarations[i] {
            Declaration::Impl(block) => {
                if same_text(get_ident_from_impl_block(block), ident) {
                    proof {
                        lemma_last_index_is(views, wanted, i as int);
                    }
                    return Some(i);
                }
            },
            _ => {},
        }
    }
    proof {
        lemma_last_index_none(views, wanted);
    }
    None
}

/// The initializer of the field `ident`: with the given value, or, without
/// one, from the variable of the same name.
pub fn generate_field_value(ident: &String, expr: Option<Expr>) -> (init: FieldInit)
    ensures
        init@ == (FieldInitView { name: ident@, value: expr.deep_view() }),
{
    FieldInit { name: ident.clone(), value: expr }
}

/// The parameter that hands a field's value to a constructor: it has the
/// field's name and type.
pub fn field_to_fn_arg(field: &Field) -> (param: Param)
    ensures
        param@ == (ParamView { name: field@.name, ty: field@.ty }),
{
    Param { name: field.name.clone(), ty: field.ty.clone() }
}

} // verus!
