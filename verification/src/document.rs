//! What the pipeline reads of a configuration document.
//!
//! A document is a `serde_yaml::Mapping`, a tree of mappings, sequences and
//! scalars. The pipeline hands it on as it is and reads one thing in it:
//! whether every number is finite, since the interchange text has no way to
//! write another. [`Shape`] is the tree as far as that question goes.

use serde_yaml::{Mapping, Number, Value};
use vstd::prelude::*;

verus! {

/// `serde_yaml::Value`: one node of a document. Nothing of its inside is
/// known here but through [`open`].
#[verifier::external_type_specification]
#[verifier::external_body]
pub struct ExValue(serde_yaml::Value);

/// `serde_yaml::Mapping`: the entries of a mapping in the order of their
/// insertion. Nothing of its inside is known here but through [`entries`].
#[verifier::external_type_specification]
#[verifier::external_body]
pub struct ExMapping(serde_yaml::Mapping);

/// `serde_yaml::Number`: an integer or a floating-point number. Nothing of
/// its inside is known here but through [`is_finite`].
#[verifier::external_type_specification]
#[verifier::external_body]
pub struct ExNumber(serde_yaml::Number);

/// A document tree without its scalars: of a number only whether it is
/// finite, of another scalar only its sort.
pub enum Shape {
    Null,
    Bool,
    Number { finite: bool },
    Text,
    Sequence(Seq<Shape>),
    Mapping(Seq<(Shape, Shape)>),
    Tagged(Box<Shape>),
}

/// The shape of a node.
pub uninterp spec fn shape_of(value: Value) -> Shape;

/// The shapes of the keys and values of a mapping, entry by entry in the
/// order of insertion.
pub uninterp spec fn entries_of(mapping: Mapping) -> Seq<(Shape, Shape)>;

/// Whether a number is neither infinite nor NaN.
pub uninterp spec fn is_finite_number(number: Number) -> bool;

/// One node of a document, opened: its sort, and for a node with nodes
/// below it a reference to them.
enum Node<'a> {
    Null,
    Bool,
    Number(&'a Number),
    Text,
    Sequence(&'a Vec<Value>),
    Mapping(&'a Mapping),
    Tagged(&'a Value),
}

/// The shapes of a sequence of nodes.
spec fn shapes_of(items: Seq<Value>) -> Seq<Shape> {
    items.map_values(|item: Value| shape_of(item))
}

/// The shapes of a sequence of entries.
spec fn entry_shapes_of(entries: Seq<(&Value, &Value)>) -> Seq<(Shape, Shape)> {
    entries.map_values(|entry: (&Value, &Value)| (shape_of(*entry.0), shape_of(*entry.1)))
}

/// The shape that an opened node stands for.
spec fn node_shape(node: Node<'_>) -> Shape {
    match node {
        Node::Null => Shape::Null,
        Node::Bool => Shape::Bool,
        Node::Number(number) => Shape::Number { finite: is_finite_number(*number) },
        Node::Text => Shape::Text,
        Node::Sequence(items) => Shape::Sequence(shapes_of(items@)),
        Node::Mapping(mapping) => Shape::Mapping(entries_of(*mapping)),
        Node::Tagged(inner) => Shape::Tagged(Box::new(shape_of(*inner))),
    }
}

/// Tells the variants of `serde_yaml::Value` apart, one arm for each, and
/// hands out what stands below the node: the number of a number, the items of
/// a sequence, the mapping of a mapping, the value under a tag.
#[verifier::external_body]
fn open(value: &Value) -> (node: Node<'_>)
    ensures
        node_shape(node) == shape_of(*value),
{
    match value {
        Value::Null => Node::Null,
        Value::Bool(_) => Node::Bool,
        Value::Number(number) => Node::Number(number),
        Value::String(_) => Node::Text,
        Value::Sequence(items) => Node::Sequence(items),
        Value::Mapping(mapping) => Node::Mapping(mapping),
        Value::Tagged(tagged) => Node::Tagged(&tagged.value),
    }
}

/// Collects what `serde_yaml::Mapping::iter` visits: every entry of the
/// mapping once, in the order of insertion.
#[verifier::external_body]
fn entries(mapping: &Mapping) -> (list: Vec<(&Value, &Value)>)
    ensures
        entry_shapes_of(list@) == entries_of(*mapping),
{
    mapping.iter().collect()
}

/// Calls `serde_yaml::Number::is_finite`: true of every integer, and of a
/// floating-point number that is neither infinite nor NaN.
#[verifier::external_body]
fn is_finite(number: &Number) -> (finite: bool)
    ensures
        finite == is_finite_number(*number),
{
    number.is_finite()
}

/// Whether every number in a tree is finite.
pub open spec fn all_finite(shape: Shape) -> bool
    decreases shape,
{
    match shape {
        Shape::Null | Shape::Bool | Shape::Text => true,
        Shape::Number { finite } => finite,
        Shape::Sequence(items) => forall|i: int|
            0 <= i < items.len() ==> all_finite(#[trigger] items[i]),
        Shape::Mapping(entries) => forall|i: int|
            0 <= i < entries.len() ==> all_finite((#[trigger] entries[i]).0) && all_finite(
                entries[i].1,
            ),
        Shape::Tagged(inner) => all_finite(*inner),
    }
}

/// Whether a document can be written as interchange text without loss:
/// whether every number in it is finite.
pub open spec fn representable(document: Mapping) -> bool {
    all_finite(Shape::Mapping(entries_of(document)))
}

/// Whether every number at or below `value` is finite.
pub fn value_is_finite(value: &Value) -> (finite: bool)
    ensures
        finite == all_finite(shape_of(*value)),
    decreases shape_of(*value),
{
    match open(value) {
        Node::Null | Node::Bool | Node::Text => true,
        Node::Number(number) => is_finite(number),
        Node::Sequence(items) => {
            let ghost shapes = shapes_of(items@);
            let mut i: usize = 0;
            while i < items.len()
                invariant
                    i <= items.len(),
                    shapes == shapes_of(items@),
                    shape_of(*value) is Sequence,
                    shape_of(*value)->Sequence_0 == shapes,
                    forall|j: int| 0 <= j < i ==> all_finite(#[trigger] shapes[j]),
                decreases items.len() - i,
            {
                assert(decreases_to!(shapes => shapes[i as int]));
                if !value_is_finite(&items[i]) {
                    return false;
                }
                i += 1;
            }
            true
        },
        Node::Mapping(mapping) => {
            assert(shape_of(*value)->Mapping_0 == entries_of(*mapping));
            is_representable(mapping)
        },
        Node::Tagged(inner) => {
            assert(*(shape_of(*value)->Tagged_0) == shape_of(*inner));
            value_is_finite(inner)
        },
    }
}

/// Whether every number in a mapping, among its keys and its values, is
/// finite.
pub fn is_representable(mapping: &Mapping) -> (finite: bool)
    ensures
        finite == representable(*mapping),
    decreases entries_of(*mapping),
{
    let list = entries(mapping);
    let ghost shapes = entries_of(*mapping);
    let mut i: usize = 0;
    while i < list.len()
        invariant
            i <= list.len(),
            shapes == entries_of(*mapping),
            shapes == entry_shapes_of(list@),
            forall|j: int|
                0 <= j < i ==> all_finite((#[trigger] shapes[j]).0) && all_finite(shapes[j].1),
        decreases list.len() - i,
    {
        let entry = list[i];
        assert(decreases_to!(shapes[i as int] => shapes[i as int].0));
        assert(decreases_to!(shapes[i as int] => shapes[i as int].1));
        if !value_is_finite(entry.0) || !value_is_finite(entry.1) {
            assert(!representable(*mapping)) by {
                assert(Shape::Mapping(shapes)->Mapping_0[i as int] == shapes[i as int]);
            }
            return false;
        }
        i += 1;
    }
    true
}

} // verus!
