//! Storage and constructor: the fields of an extension's storage struct go
//! into the base contract's storage struct and through its constructors.

use vstd::prelude::*;
use crate::generator::ast::{
    attribute_payload, extract_attribute_expression, extract_fn_implementation_by_attr,
    field_to_fn_arg, find_struct_by_attr, generate_field_value, method_tagged, struct_tagged,
};
use crate::generator::merge::constructor_values::{
    metadata_field_value, produce_metadata_field_expr,
};
use crate::generator::merge::{
    constructor_marker, extension_storage_marker, init_marker, storage_marker, tag_attribute,
    tag_attribute_with,
};
use crate::generator::search::{
    first_index, lemma_first_index, lemma_first_index_is, lemma_first_index_none, position,
};
use crate::generator::source_parser::ExtensionKind;
use crate::generator::tree::{
    Attribute, AttributeView, Declaration, DeclarationView, Field, FieldInit, FieldInitView,
    FieldView, ImplBlock, ImplBlockView, Method, MethodView, Module, ModuleView, ParamView,
    Statement, StatementView, StructType, StructTypeView,
};
use crate::{Metadata, MetadataView, Standard};

verus! {

/// A field without its attributes.
pub open spec fn stripped(field: FieldView) -> FieldView {
    FieldView { attrs: Seq::empty(), ..field }
}

/// The fields without their attributes.
pub open spec fn stripped_fields(fields: Seq<FieldView>) -> Seq<FieldView> {
    Seq::new(fields.len(), |i: int| stripped(fields[i]))
}

/// The parameter that hands a field's value to a constructor.
pub open spec fn param_of(field: FieldView) -> ParamView {
    ParamView { name: field.name, ty: field.ty }
}

/// The parameters that the fields add to a constructor: one for each field
/// that carries no value of its own in an attribute equal to `search`.
pub open spec fn added_params(fields: Seq<FieldView>, search: AttributeView) -> Seq<ParamView>
    decreases fields.len(),
{
    if fields.len() == 0 {
        Seq::empty()
    } else if attribute_payload(fields.last().attrs, search) is Some {
        added_params(fields.drop_last(), search)
    } else {
        added_params(fields.drop_last(), search).push(param_of(fields.last()))
    }
}

/// The initializer that a field adds to a constructor's struct literal.
/// In a metadata extension the value is read out of the metadata. In any
/// other extension it is the value that the field carries in an attribute
/// equal to `search`, and without one the field is initialized from the
/// parameter of its name.
pub open spec fn field_initializer(
    field: FieldView,
    search: AttributeView,
    kind: ExtensionKind,
    metadata: Option<MetadataView>,
) -> FieldInitView {
    FieldInitView {
        name: field.name,
        value: if kind == ExtensionKind::Metadata {
            Some(metadata_field_value(kind, field.name, metadata))
        } else {
            attribute_payload(field.attrs, search)
        },
    }
}

/// The initializers that the fields add, one for each field, in order.
pub open spec fn added_initializers(
    fields: Seq<FieldView>,
    search: AttributeView,
    kind: ExtensionKind,
    metadata: Option<MetadataView>,
) -> Seq<FieldInitView> {
    Seq::new(fields.len(), |i: int| field_initializer(fields[i], search, kind, metadata))
}

/// The property of being an expression statement.
pub open spec fn is_expression() -> spec_fn(StatementView) -> bool {
    |statement: StatementView| !(statement is Other)
}

/// The body of a constructor after the initializers were added: they go to
/// the end of the struct literal that is the body's first expression
/// statement. A body whose first expression statement is no struct
/// literal, or that has none, stays as it is.
pub open spec fn extend_body(body: Seq<StatementView>, inits: Seq<FieldInitView>) -> Seq<
    StatementView,
> {
    match first_index(body, is_expression()) {
        Some(i) => match body[i] {
            StatementView::StructLiteral { path, fields, rest } => body.update(
                i,
                StatementView::StructLiteral { path, fields: fields + inits, rest },
            ),
            _ => body,
        },
        None => body,
    }
}

/// A constructor after the fields were threaded through it: except in a
/// metadata extension it gets their parameters, and in every extension
/// their initializers.
pub open spec fn extend_method(
    method: MethodView,
    fields: Seq<FieldView>,
    kind: ExtensionKind,
    metadata: Option<MetadataView>,
) -> MethodView {
    MethodView {
        params: if kind == ExtensionKind::Metadata {
            method.params
        } else {
            method.params + added_params(fields, init_marker())
        },
        body: extend_body(method.body, added_initializers(fields, init_marker(), kind, metadata)),
        ..method
    }
}

/// An implementation block after the fields were threaded through its
/// constructor: the first method with the constructor attribute.
pub open spec fn extend_block(
    block: ImplBlockView,
    fields: Seq<FieldView>,
    kind: ExtensionKind,
    metadata: Option<MetadataView>,
) -> ImplBlockView {
    match first_index(block.methods, method_tagged(constructor_marker())) {
        Some(i) => ImplBlockView {
            methods: block.methods.update(
                i,
                extend_method(block.methods[i], fields, kind, metadata),
            ),
            ..block
        },
        None => block,
    }
}

/// A declaration after the fields were threaded through its constructor,
/// where it is an implementation block that has one.
pub open spec fn extend_declaration(
    declaration: DeclarationView,
    fields: Seq<FieldView>,
    kind: ExtensionKind,
    metadata: Option<MetadataView>,
) -> DeclarationView {
    match declaration {
        DeclarationView::Impl(block) => DeclarationView::Impl(
            extend_block(block, fields, kind, metadata),
        ),
        _ => declaration,
    }
}

/// The declarations after the fields were threaded through the
/// constructor of every implementation block.
pub open spec fn extend_constructors(
    declarations: Seq<DeclarationView>,
    fields: Seq<FieldView>,
    kind: ExtensionKind,
    metadata: Option<MetadataView>,
) -> Seq<DeclarationView> {
    Seq::new(
        declarations.len(),
        |i: int| extend_declaration(declarations[i], fields, kind, metadata),
    )
}

/// The declarations of the base after the storage of an extension was
/// merged in. Where the base has a storage struct and the extension has
/// one, the extension's fields go to the end of the base's storage struct,
/// without their attributes, and through the constructors. Where either
/// struct is missing, the base stays as it is.
pub open spec fn merge_state(
    base: Seq<DeclarationView>,
    extension: Seq<DeclarationView>,
    kind: ExtensionKind,
    metadata: Option<MetadataView>,
) -> Seq<DeclarationView> {
    match (
        first_index(base, struct_tagged(storage_marker())),
        first_index(extension, struct_tagged(extension_storage_marker())),
    ) {
        (Some(t), Some(e)) => {
            let fields = extension[e]->Struct_0.fields;
            let storage = base[t]->Struct_0;
            extend_constructors(
                base.update(
                    t,
                    DeclarationView::Struct(
                        StructTypeView { fields: storage.fields + stripped_fields(fields), ..storage },
                    ),
                ),
                fields,
                kind,
                metadata,
            )
        },
        _ => base,
    }
}

/// Copies the fields of a struct, attributes included.
pub fn export_fields_from_struct(input_struct: &StructType) -> (fields: Vec<Field>)
    ensures
        fields.deep_view() == input_struct@.fields,
{
    let fields = input_struct.fields.clone();
    assert(fields.deep_view() =~= input_struct.fields.deep_view());
    fields
}

/// Copies a field without its attributes.
pub fn strip_field_attributes(field: &Field) -> (bare: Field)
    ensures
        bare@ == stripped(field@),
{
    let attrs: Vec<Attribute> = Vec::new();
    assert(attrs.deep_view() =~= Seq::<AttributeView>::empty());
    Field {
        visibility: field.visibility.clone(),
        name: field.name.clone(),
        ty: field.ty.clone(),
        attrs,
    }
}

/// Appends the fields, without their attributes, to the struct.
pub fn append_fields_to_struct(target_struct: &mut StructType, fields: &Vec<Field>)
    ensures
        final(target_struct)@ == (StructTypeView {
            fields: old(target_struct)@.fields + stripped_fields(fields.deep_view()),
            ..old(target_struct)@
        }),
{
    let ghost start = target_struct@;
    let ghost added = fields.deep_view();
    let mut k: usize = 0;
    while k < fields.len()
        invariant
            0 <= k <= fields.len(),
            added == fields.deep_view(),
            target_struct@ == (StructTypeView {
                fields: start.fields + stripped_fields(added.take(k as int)),
                ..start
            }),
        decreases fields.len() - k,
    {
        let ghost before = target_struct.fields.deep_view();
        target_struct.fields.push(strip_field_attributes(&fields[k]));
        proof {
            assert(target_struct.fields.deep_view() =~= before.push(stripped(added[k as int])));
            assert(target_struct.fields.deep_view() =~= start.fields + stripped_fields(
                added.take(k as int + 1),
            ));
        }
        k += 1;
    }
    proof {
        assert(added.take(k as int) =~= added);
    }
}

/// Appends to the method one parameter for each field that carries no
/// value of its own in an attribute equal to `search_attr`.
pub fn append_params_to_fn(impl_fn: &mut Method, appended_fields: &Vec<Field>, search_attr: &Attribute)
    ensures
        final(impl_fn)@ == (MethodView {
            params: old(impl_fn)@.params + added_params(appended_fields.deep_view(), search_attr@),
            ..old(impl_fn)@
        }),
{
    let ghost start = impl_fn@;
    let ghost added = appended_fields.deep_view();
    let mut k: usize = 0;
    assert(added.take(0) =~= Seq::<FieldView>::empty());
    assert(start.params + Seq::<ParamView>::empty() =~= start.params);
    while k < appended_fields.len()
        invariant
            0 <= k <= appended_fields.len(),
            added == appended_fields.deep_view(),
            impl_fn@ == (MethodView {
                params: start.params + added_params(added.take(k as int), search_attr@),
                ..start
            }),
        decreases appended_fields.len() - k,
    {
        let field = &appended_fields[k];
        proof {
            assert(added.take(k as int + 1).drop_last() =~= added.take(k as int));
            assert(added.take(k as int + 1).last() == field@);
        }
        if extract_attribute_expression(&field.attrs, search_attr).is_none() {
            let ghost before = impl_fn.params.deep_view();
            impl_fn.params.push(field_to_fn_arg(field));
            proof {
                assert(impl_fn.params.deep_view() =~= before.push(param_of(field@)));
                assert(impl_fn.params.deep_view() =~= start.params + added_params(
                    added.take(k as int + 1),
                    search_attr@,
                ));
            }
        }
        k += 1;
    }
    proof {
        assert(added.take(k as int) =~= added);
    }
}

/// Appends to `inits` the initializers of the fields.
fn append_initializers(
    inits: &mut Vec<FieldInit>,
    appended_fields: &Vec<Field>,
    search_attr: &Attribute,
    extension_kind: &ExtensionKind,
    standard: Standard,
    metadata_common: &Option<Metadata>,
)
    ensures
        final(inits).deep_view() == old(inits).deep_view() + added_initializers(
            appended_fields.deep_view(),
            search_attr@,
            *extension_kind,
            metadata_common.deep_view(),
        ),
{
    let ghost start = inits.deep_view();
    let ghost added = appended_fields.deep_view();
    let ghost wanted = added_initializers(
        added,
        search_attr@,
        *extension_kind,
        metadata_common.deep_view(),
    );
    let mut k: usize = 0;
    while k < appended_fields.len()
        invariant
            0 <= k <= appended_fields.len(),
            added == appended_fields.deep_view(),
            wanted == added_initializers(
                added,
                search_attr@,
                *extension_kind,
                metadata_common.deep_view(),
            ),
            inits.deep_view() =~= start + wanted.take(k as int),
        decreases appended_fields.len() - k,
    {
        let field = &appended_fields[k];
        let custom_expression_opt = match extension_kind {
            ExtensionKind::Metadata => Some(
                produce_metadata_field_expr(extension_kind, standard, field, metadata_common),
            ),
            _ => extract_attribute_expression(&field.attrs, search_attr),
        };
        let ghost before = inits.deep_view();
        inits.push(generate_field_value(&field.name, custom_expression_opt));
        proof {
            assert(inits.deep_view() =~= before.push(wanted[k as int]));
            assert(wanted.take(k as int + 1) =~= wanted.take(k as int).push(wanted[k as int]));
        }
        k += 1;
    }
    proof {
        assert(wanted.take(k as int) =~= wanted);
    }
}

/// The position of the first expression statement of a body.
fn find_expression(body: &Vec<Statement>) -> (found: Option<usize>)
    ensures
        position(found) == first_index(body.deep_view(), is_expression()),
        match found {
            Some(i) => i < body.len(),
            None => true,
        },
{
    let ghost views = body.deep_view();
    let mut i: usize = 0;
    while i < body.len()
        invariant
            0 <= i <= body.len(),
            views == body.deep_view(),
            forall|j: int| 0 <= j < i ==> !is_expression()(#[trigger] views[j]),
        decreases body.len() - i,
    {
        match &body[i] {
            Statement::Other(_) => {},
            _ => {
                proof {
                    lemma_first_index_is(views, is_expression(), i as int);
                }
                return Some(i);
            },
        }
        i += 1;
    }
    proof {
        lemma_first_index_none(views, is_expression());
    }
    None
}

/// Adds one initializer for each field to the struct literal that the
/// constructor's body returns.
pub fn extend_constructor_body(
    impl_fn: &mut Method,
    appended_fields: &Vec<Field>,
    search_attr: &Attribute,
    extension_kind: &ExtensionKind,
    standard: Standard,
    metadata_common: &Option<Metadata>,
)
    ensures
        final(impl_fn)@ == (MethodView {
            body: extend_body(
                old(impl_fn)@.body,
                added_initializers(
                    appended_fields.deep_view(),
                    search_attr@,
                    *extension_kind,
                    metadata_common.deep_view(),
                ),
            ),
            ..old(impl_fn)@
        }),
{
    let ghost before = impl_fn.body.deep_view();
    let ghost inits = added_initializers(
        appended_fields.deep_view(),
        search_attr@,
        *extension_kind,
        metadata_common.deep_view(),
    );
    match find_expression(&impl_fn.body) {
        None => {},
        Some(i) => {
            match &mut impl_fn.body[i] {
                Statement::StructLiteral { fields, .. } => {
                    append_initializers(
                        fields,
                        appended_fields,
                        search_attr,
                        extension_kind,
                        standard,
                        metadata_common,
                    );
                },
                _ => {},
            }
            proof {
                assert(impl_fn.body.deep_view() =~= extend_body(before, inits));
            }
        },
    }
}

/// Threads the fields through the constructor of one implementation block.
pub fn extend_constructor_in_block(
    impl_block: &mut ImplBlock,
    appended_fields: &Vec<Field>,
    extension_kind: &ExtensionKind,
    standard: Standard,
    metadata_common: &Option<Metadata>,
)
    ensures
        final(impl_block)@ == extend_block(
            old(impl_block)@,
            appended_fields.deep_view(),
            *extension_kind,
            metadata_common.deep_view(),
        ),
{
    let ghost before = impl_block.methods.deep_view();
    let constructor_attribute = tag_attribute_with("ink", "constructor");
    match extract_fn_implementation_by_attr(impl_block, &constructor_attribute) {
        None => {},
        Some(i) => {
            let init_attribute = tag_attribute("smart_beaver::init");
            let fn_item = &mut impl_block.methods[i];
            match extension_kind {
                ExtensionKind::Metadata => {},
                _ => {
                    append_params_to_fn(fn_item, appended_fields, &init_attribute);
                },
            }
            extend_constructor_body(
                fn_item,
                appended_fields,
                &init_attribute,
                extension_kind,
                standard,
                metadata_common,
            );
            proof {
                assert(impl_block.methods.deep_view() =~= before.update(
                    i as int,
                    extend_method(
                        before[i as int],
                        appended_fields.deep_view(),
                        *extension_kind,
                        metadata_common.deep_view(),
                    ),
                ));
            }
        },
    }
}

/// Threads the fields through the constructor of every implementation
/// block of the module.
pub fn extend_constructor(
    root_mod: &mut Module,
    appended_fields: &Vec<Field>,
    extension_kind: &ExtensionKind,
    standard: Standard,
    metadata_common: &Option<Metadata>,
)
    ensures
        final(root_mod)@ == (ModuleView {
            declarations: extend_constructors(
                old(root_mod)@.declarations,
                appended_fields.deep_view(),
                *extension_kind,
                metadata_common.deep_view(),
            ),
            ..old(root_mod)@
        }),
{
    let ghost start = root_mod@;
    let ghost wanted = extend_constructors(
        start.declarations,
        appended_fields.deep_view(),
        *extension_kind,
        metadata_common.deep_view(),
    );
    let mut i: usize = 0;
    while i < root_mod.declarations.len()
        invariant
            0 <= i <= root_mod.declarations.len(),
            root_mod@.name == start.name,
            root_mod@.visibility == start.visibility,
            root_mod@.attrs == start.attrs,
            root_mod.declarations.len() == start.declarations.len(),
            wanted == extend_constructors(
                start.declarations,
                appended_fields.deep_view(),
                *extension_kind,
                metadata_common.deep_view(),
            ),
            forall|j: int| 0 <= j < i ==> (#[trigger] root_mod.declarations[j])@ == wanted[j],
            forall|j: int|
                i <= j < root_mod.declarations.len() ==> (#[trigger] root_mod.declarations[j])@
                    == start.declarations[j],
        decreases root_mod.declarations.len() - i,
    {
        match &mut root_mod.declarations[i] {
            Declaration::Impl(impl_block) => {
                extend_constructor_in_block(
                    impl_block,
                    appended_fields,
                    extension_kind,
                    standard,
                    metadata_common,
                );
            },
            _ => {},
        }
        i += 1;
    }
    proof {
        assert(root_mod.declarations.deep_view() =~= wanted);
    }
}

/// Merges the storage of an extension into the base module: its fields go
/// into the base's storage struct and through the base's constructors.
pub fn merge_state_and_constructor(
    root_mod: &mut Module,
    extension: &Module,
    extension_kind: &ExtensionKind,
    standard: Standard,
    metadata_common: &Option<Metadata>,
)
    ensures
        final(root_mod)@ == (ModuleView {
            declarations: merge_state(
                old(root_mod)@.declarations,
                extension@.declarations,
                *extension_kind,
                metadata_common.deep_view(),
            ),
            ..old(root_mod)@
        }),
{
    let ghost before = root_mod.declarations.deep_view();
    let storage_attribute = tag_attribute_with("ink", "storage");
    let extension_storage_attribute = tag_attribute("smart_beaver::storage");
    let target_storage_opt = find_struct_by_attr(root_mod, &storage_attribute);
    let extension_storage_opt = find_struct_by_attr(extension, &extension_storage_attribute);
    match (target_storage_opt, extension_storage_opt) {
        (Some(t), Some(e)) => {
            let extension_fields = match &extension.declarations[e] {
                Declaration::Struct(extension_storage) => export_fields_from_struct(
                    extension_storage,
                ),
                _ => Vec::new(),
            };
            match &mut root_mod.declarations[t] {
                Declaration::Struct(target_storage) => {
                    append_fields_to_struct(target_storage, &extension_fields);
                },
                _ => {},
            }
            proof {
                let storage = before[t as int]->Struct_0;
                assert(root_mod.declarations.deep_view() =~= before.update(
                    t as int,
                    DeclarationView::Struct(
                        StructTypeView {
                            fields: storage.fields + stripped_fields(extension_fields.deep_view()),
                            ..storage
                        },
                    ),
                ));
            }
            extend_constructor(
                root_mod,
                &extension_fields,
                extension_kind,
                standard,
                metadata_common,
            );
        },
        _ => {},
    }
}

/// The parameter lists of the methods of a declaration, in order; a
/// declaration that is no implementation block has none.
pub open spec fn parameter_lists(declaration: DeclarationView) -> Seq<Seq<ParamView>> {
    match declaration {
        DeclarationView::Impl(block) => Seq::new(
            block.methods.len(),
            |j: int| block.methods[j].params,
        ),
        _ => Seq::empty(),
    }
}

/// Without initializers to add, a body stays as it is.
pub proof fn lemma_extend_body_empty(body: Seq<StatementView>)
    ensures
        extend_body(body, Seq::empty()) == body,
{
    match first_index(body, is_expression()) {
        Some(i) => {
            lemma_first_index(body, is_expression());
            match body[i] {
                StatementView::StructLiteral { path, fields, rest } => {
                    assert(fields + Seq::<FieldInitView>::empty() =~= fields);
                    assert(body.update(i, body[i]) =~= body);
                },
                _ => {},
            }
        },
        None => {},
    }
}

/// Without fields, a declaration stays as it is.
pub proof fn lemma_extend_declaration_empty(
    declaration: DeclarationView,
    kind: ExtensionKind,
    metadata: Option<MetadataView>,
)
    ensures
        extend_declaration(declaration, Seq::empty(), kind, metadata) == declaration,
{
    match declaration {
        DeclarationView::Impl(block) => {
            match first_index(block.methods, method_tagged(constructor_marker())) {
                Some(i) => {
                    lemma_first_index(block.methods, method_tagged(constructor_marker()));
                    let method = block.methods[i];
                    let fields = Seq::<FieldView>::empty();
                    lemma_extend_body_empty(method.body);
                    assert(added_initializers(fields, init_marker(), kind, metadata)
                        =~= Seq::<FieldInitView>::empty());
                    assert(method.params + added_params(fields, init_marker()) =~= method.params);
                    assert(extend_method(method, fields, kind, metadata) == method);
                    assert(block.methods.update(i, method) =~= block.methods);
                },
                None => {},
            }
        },
        _ => {},
    }
}

/// An extension whose storage struct has no fields leaves the base as it
/// is: its storage struct, its constructors' parameters and their bodies.
pub proof fn lemma_no_fields_no_change(
    base: Seq<DeclarationView>,
    extension: Seq<DeclarationView>,
    kind: ExtensionKind,
    metadata: Option<MetadataView>,
)
    requires
        match first_index(extension, struct_tagged(extension_storage_marker())) {
            Some(e) => extension[e]->Struct_0.fields.len() == 0,
            None => true,
        },
    ensures
        merge_state(base, extension, kind, metadata) == base,
{
    match (
        first_index(base, struct_tagged(storage_marker())),
        first_index(extension, struct_tagged(extension_storage_marker())),
    ) {
        (Some(t), Some(e)) => {
            lemma_first_index(base, struct_tagged(storage_marker()));
            let fields = extension[e]->Struct_0.fields;
            assert(fields =~= Seq::<FieldView>::empty());
            let storage = base[t]->Struct_0;
            assert(storage.fields + stripped_fields(fields) =~= storage.fields);
            let with_fields = base.update(
                t,
                DeclarationView::Struct(
                    StructTypeView { fields: storage.fields + stripped_fields(fields), ..storage },
                ),
            );
            assert(with_fields =~= base);
            assert forall|i: int| 0 <= i < base.len() implies extend_declaration(
                base[i],
                fields,
                kind,
                metadata,
            ) == base[i] by {
                lemma_extend_declaration_empty(base[i], kind, metadata);
            }
            assert(extend_constructors(base, fields, kind, metadata) =~= base);
        },
        _ => {},
    }
}

/// A metadata extension adds no parameter to any method of the base,
/// whatever fields it adds to the storage struct.
pub proof fn lemma_metadata_adds_no_parameters(
    base: Seq<DeclarationView>,
    extension: Seq<DeclarationView>,
    metadata: Option<MetadataView>,
)
    ensures
        merge_state(base, extension, ExtensionKind::Metadata, metadata).len() == base.len(),
        forall|i: int|
            0 <= i < base.len() ==> parameter_lists(
                #[trigger] merge_state(base, extension, ExtensionKind::Metadata, metadata)[i],
            ) == parameter_lists(base[i]),
{
    let kind = ExtensionKind::Metadata;
    let merged = merge_state(base, extension, kind, metadata);
    match (
        first_index(base, struct_tagged(storage_marker())),
        first_index(extension, struct_tagged(extension_storage_marker())),
    ) {
        (Some(t), Some(e)) => {
            lemma_first_index(base, struct_tagged(storage_marker()));
            let fields = extension[e]->Struct_0.fields;
            assert forall|i: int| 0 <= i < base.len() implies parameter_lists(
                #[trigger] merged[i],
            ) == parameter_lists(base[i]) by {
                match base[i] {
                    DeclarationView::Impl(block) => {
                        lemma_first_index(block.methods, method_tagged(constructor_marker()));
                        assert(parameter_lists(merged[i]) =~= parameter_lists(base[i]));
                    },
                    _ => {},
                }
            }
        },
        _ => {},
    }
}

} // verus!
