//! Values without a schema: JSON trees in the form that the agent API carries
//! them in.

use vstd::prelude::*;

verus! {

/// A value without a schema.
#[derive(Debug, PartialEq)]
pub enum ProtoValue {
    /// No kind was set.
    Unset,
    Null,
    Bool(bool),
    /// A finite double, by its decimal text.
    Number(String),
    /// An infinity, or no number at all.
    NonFinite,
    Text(String),
    List(Vec<ProtoValue>),
    Struct(Vec<(String, ProtoValue)>),
}

#[verifier::ext_equal]
pub enum ProtoValueView {
    Unset,
    Null,
    Bool(bool),
    Number(Seq<char>),
    NonFinite,
    Text(Seq<char>),
    List(Seq<ProtoValueView>),
    Struct(Seq<(Seq<char>, ProtoValueView)>),
}

/// What a [`ProtoValue`] stands for.
pub open spec fn value_view(value: ProtoValue) -> ProtoValueView
    decreases value,
{
    match value {
        ProtoValue::Unset => ProtoValueView::Unset,
        ProtoValue::Null => ProtoValueView::Null,
        ProtoValue::Bool(flag) => ProtoValueView::Bool(flag),
        ProtoValue::Number(text) => ProtoValueView::Number(text@),
        ProtoValue::NonFinite => ProtoValueView::NonFinite,
        ProtoValue::Text(text) => ProtoValueView::Text(text@),
        ProtoValue::List(items) => ProtoValueView::List(
            Seq::new(
                items@.len(),
                |i: int|
                    if 0 <= i < items@.len() {
                        value_view(items@[i])
                    } else {
                        ProtoValueView::Unset
                    },
            ),
        ),
        ProtoValue::Struct(fields) => ProtoValueView::Struct(
            Seq::new(
                fields@.len(),
                |i: int|
                    if 0 <= i < fields@.len() {
                        (fields@[i].0@, value_view(fields@[i].1))
                    } else {
                        (Seq::empty(), ProtoValueView::Unset)
                    },
            ),
        ),
    }
}

impl DeepView for ProtoValue {
    type V = ProtoValueView;

    open spec fn deep_view(&self) -> ProtoValueView {
        value_view(*self)
    }
}

impl Clone for ProtoValue {
    fn clone(&self) -> (copy: Self)
        ensures
            copy.deep_view() == self.deep_view(),
        decreases self,
    {
        match self {
            ProtoValue::Unset => ProtoValue::Unset,
            ProtoValue::Null => ProtoValue::Null,
            ProtoValue::Bool(flag) => ProtoValue::Bool(*flag),
            ProtoValue::Number(text) => ProtoValue::Number(text.clone()),
            ProtoValue::NonFinite => ProtoValue::NonFinite,
            ProtoValue::Text(text) => ProtoValue::Text(text.clone()),
            ProtoValue::List(items) => {
                let mut copies: Vec<ProtoValue> = Vec::new();
                for i in 0..items.len()
                    invariant
                        *self == ProtoValue::List(*items),
                        copies@.len() == i,
                        forall|k: int|
                            0 <= k < i ==> copies@[k].deep_view() == (
                            #[trigger] items@[k]).deep_view(),
                {
                    assert(decreases_to!(*self => self->List_0));
                    assert(decreases_to!(items@ => items@[i as int]));
                    copies.push(items[i].clone());
                }
                let copy = ProtoValue::List(copies);
                assert(copy.deep_view()->List_0 =~= self.deep_view()->List_0);
                copy
            },
            ProtoValue::Struct(fields) => {
                let mut copies: Vec<(String, ProtoValue)> = Vec::new();
                for i in 0..fields.len()
                    invariant
                        *self == ProtoValue::Struct(*fields),
                        copies@.len() == i,
                        forall|k: int|
                            0 <= k < i ==> copies@[k].deep_view() == (
                            #[trigger] fields@[k]).deep_view(),
                {
                    assert(decreases_to!(*self => self->Struct_0));
                    assert(decreases_to!(fields@ => fields@[i as int]));
                    copies.push((fields[i].0.clone(), fields[i].1.clone()));
                }
                let copy = ProtoValue::Struct(copies);
                assert(copy.deep_view()->Struct_0 =~= self.deep_view()->Struct_0);
                copy
            },
        }
    }
}

/// Named values, in the order of their names, as [`crate::structs::keyed_struct`] has it.
#[derive(Debug, PartialEq, Default)]
pub struct Struct {
    pub fields: Vec<(String, ProtoValue)>,
}

#[verifier::ext_equal]
pub struct StructView {
    pub fields: Seq<(Seq<char>, ProtoValueView)>,
}

impl DeepView for Struct {
    type V = StructView;

    open spec fn deep_view(&self) -> StructView {
        StructView { fields: self.fields.deep_view() }
    }
}

impl Clone for Struct {
    fn clone(&self) -> (copy: Self)
        ensures
            copy.deep_view() == self.deep_view(),
    {
        let mut fields: Vec<(String, ProtoValue)> = Vec::new();
        for i in 0..self.fields.len()
            invariant
                fields@.len() == i,
                forall|k: int|
                    0 <= k < i ==> fields@[k].deep_view() == (
                    #[trigger] self.fields@[k]).deep_view(),
        {
            fields.push((self.fields[i].0.clone(), self.fields[i].1.clone()));
        }
        let copy = Struct { fields };
        assert(copy.fields.deep_view() =~= self.fields.deep_view());
        copy
    }
}

} // verus!
