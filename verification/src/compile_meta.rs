//! Compile-time metadata about the declarations of a unit: one tagged
//! record per item path, inserted as indexing discovers declarations.

use vstd::prelude::*;

use crate::item::{spec_item_text, ComponentV, Item};
use crate::span::{SourceId, Span};

verus! {

/// An opaque hash identifying a declared type or function.
#[derive(Clone, Copy, PartialEq, Eq, Structural, Debug)]
pub struct TypeHash {
    /// The hash value.
    pub value: u64,
}

/// The value type associated with a declaration.
#[derive(Clone, Copy, PartialEq, Eq, Structural, Debug)]
pub struct Type {
    /// The hash the type is identified by.
    pub hash: TypeHash,
}

/// One mixing step of the type hash: fold one 64-bit word into the
/// accumulator.
pub open spec fn hash_mix(h: u64, x: u64) -> u64 {
    ((((h ^ x) as int) * 0x100000001b3) % 0x10000000000000000) as u64
}

/// The accumulator after folding in every character of `s`.
pub open spec fn hash_chars(h: u64, s: Seq<char>) -> u64
    decreases s.len(),
{
    if s.len() == 0 {
        h
    } else {
        hash_chars(hash_mix(h, s.first() as u64), s.drop_first())
    }
}

/// The accumulator after folding in one path component, tagged by its
/// kind so that distinct kinds mix differently.
pub open spec fn hash_component(h: u64, c: ComponentV) -> u64 {
    match c {
        ComponentV::Str(s) => hash_chars(hash_mix(h, 1), s),
        ComponentV::Block(i) => hash_mix(hash_mix(h, 2), i as u64),
        ComponentV::Closure(i) => hash_mix(hash_mix(h, 3), i as u64),
        ComponentV::AsyncBlock(i) => hash_mix(hash_mix(h, 4), i as u64),
        ComponentV::Macro(i) => hash_mix(hash_mix(h, 5), i as u64),
    }
}

/// The accumulator after folding in every component of `s`.
pub open spec fn hash_components(h: u64, s: Seq<ComponentV>) -> u64
    decreases s.len(),
{
    if s.len() == 0 {
        h
    } else {
        hash_components(hash_component(h, s.first()), s.drop_first())
    }
}

/// The type hash of an item path: a 64-bit fold over its components,
/// a deterministic function of the path alone.
pub open spec fn spec_type_hash(item: Seq<ComponentV>) -> u64 {
    hash_components(0xcbf29ce484222325, item)
}

/// One exec mixing step.
fn mix(h: u64, x: u64) -> (r: u64)
    ensures
        r == hash_mix(h, x),
{
    let r = (h ^ x).wrapping_mul(0x100000001b3);
    proof {
        assert(r == hash_mix(h, x));
    }
    r
}

/// Fold every character of `s` into the accumulator.
fn mix_chars(h: u64, s: &str) -> (r: u64)
    ensures
        r == hash_chars(h, s@),
{
    let len = s.unicode_len();
    let mut acc = h;
    let mut i: usize = 0;
    proof {
        assert(s@.skip(0) =~= s@);
    }
    while i < len
        invariant
            i <= len,
            len == s@.len(),
            hash_chars(h, s@) == hash_chars(acc, s@.skip(i as int)),
        decreases len - i,
    {
        let c = s.get_char(i);
        proof {
            assert(s@.skip(i as int).first() == s@[i as int]);
            assert(s@.skip(i as int).drop_first() =~= s@.skip(i + 1));
        }
        acc = mix(acc, c as u64);
        i = i + 1;
    }
    proof {
        assert(s@.skip(len as int) =~= Seq::<char>::empty());
    }
    acc
}

impl TypeHash {
    /// The hash that identifies the type declared at `item`.
    pub fn type_hash(item: &Item) -> (r: TypeHash)
        ensures
            r.value == spec_type_hash(item@),
    {
        let mut acc: u64 = 0xcbf29ce484222325;
        let len = item.len();
        let mut i: usize = 0;
        proof {
            assert(item@.skip(0) =~= item@);
        }
        while i < len
            invariant
                i <= len,
                len == item@.len(),
                spec_type_hash(item@) == hash_components(acc, item@.skip(i as int)),
            decreases len - i,
        {
            proof {
                assert(item@.skip(i as int).first() == item@[i as int]);
                assert(item@.skip(i as int).drop_first() =~= item@.skip(i + 1));
            }
            acc = match item.get(i) {
                crate::item::Component::Str(s) => mix_chars(mix(acc, 1), s.as_str()),
                crate::item::Component::Block(n) => mix(mix(acc, 2), *n),
                crate::item::Component::Closure(n) => mix(mix(acc, 3), *n),
                crate::item::Component::AsyncBlock(n) => mix(mix(acc, 4), *n),
                crate::item::Component::Macro(n) => mix(mix(acc, 5), *n),
            };
            i = i + 1;
        }
        proof {
            assert(item@.skip(len as int) =~= Seq::<ComponentV>::empty());
        }
        TypeHash { value: acc }
    }
}

impl Type {
    /// The type identified by the given hash.
    pub fn of_hash(hash: TypeHash) -> (r: Type)
        ensures
            r.hash == hash,
    {
        Type { hash }
    }
}

/// The evaluated value of a constant declaration.
#[derive(Debug)]
pub enum ConstValue {
    /// The unit value.
    Unit,
    /// A boolean.
    Bool(bool),
    /// A byte.
    Byte(u8),
    /// A character.
    Char(char),
    /// A signed 64-bit integer.
    Integer(i64),
    /// A floating point constant, kept as its source spelling; the core
    /// carries it through but does not compute with it.
    Float(String),
    /// A string.
    Str(String),
}

/// The mathematical value of a [`ConstValue`].
pub ghost enum ConstValueV {
    /// The unit value.
    Unit,
    /// A boolean.
    Bool(bool),
    /// A byte.
    Byte(u8),
    /// A character.
    Char(char),
    /// An integer.
    Integer(int),
    /// A floating point constant, as its source spelling.
    Float(Seq<char>),
    /// A string.
    Str(Seq<char>),
}

impl View for ConstValue {
    type V = ConstValueV;

    open spec fn view(&self) -> ConstValueV {
        match self {
            ConstValue::Unit => ConstValueV::Unit,
            ConstValue::Bool(b) => ConstValueV::Bool(*b),
            ConstValue::Byte(b) => ConstValueV::Byte(*b),
            ConstValue::Char(c) => ConstValueV::Char(*c),
            ConstValue::Integer(n) => ConstValueV::Integer(*n as int),
            ConstValue::Float(s) => ConstValueV::Float(s@),
            ConstValue::Str(s) => ConstValueV::Str(s@),
        }
    }
}

impl Clone for ConstValue {
    fn clone(&self) -> (r: ConstValue)
        ensures
            r@ == self@,
    {
        match self {
            ConstValue::Unit => ConstValue::Unit,
            ConstValue::Bool(b) => ConstValue::Bool(*b),
            ConstValue::Byte(b) => ConstValue::Byte(*b),
            ConstValue::Char(c) => ConstValue::Char(*c),
            ConstValue::Integer(n) => ConstValue::Integer(*n),
            ConstValue::Float(s) => ConstValue::Float(s.clone()),
            ConstValue::Str(s) => ConstValue::Str(s.clone()),
        }
    }
}

/// Metadata about a closure capture.
pub struct CompileMetaCapture {
    /// Identity of the captured variable.
    pub ident: String,
}

/// Information on where a declaration came from.
pub struct CompileSource {
    /// The span where the meta is declared.
    pub span: Span,
    /// The path of the source file, when it has one.
    pub path: Option<String>,
    /// The source id where the compile meta is defined.
    pub source_id: SourceId,
}

/// The metadata about a record type with named fields.
pub struct CompileMetaStruct {
    /// The path to the object.
    pub item: Item,
    /// Fields associated with the type.
    pub fields: Option<Vec<String>>,
}

/// The metadata about a tuple type.
pub struct CompileMetaTuple {
    /// The path to the tuple.
    pub item: Item,
    /// The number of arguments the tuple takes.
    pub args: usize,
    /// Hash of the constructor function.
    pub hash: TypeHash,
}

/// Compile-time metadata kind about a unit.
pub enum CompileMetaKind {
    /// Metadata about a tuple struct.
    Tuple {
        /// The value type associated with this meta item.
        type_of: Type,
        /// The underlying tuple.
        tuple: CompileMetaTuple,
    },
    /// Metadata about a tuple variant of an enum.
    TupleVariant {
        /// The value type associated with this meta item.
        type_of: Type,
        /// The item of the enum.
        enum_item: Item,
        /// The underlying tuple.
        tuple: CompileMetaTuple,
    },
    /// Metadata about a record struct.
    Struct {
        /// The value type associated with this meta item.
        type_of: Type,
        /// The underlying object.
        object: CompileMetaStruct,
    },
    /// Metadata about a record variant of an enum.
    ObjectVariant {
        /// The value type associated with this meta item.
        type_of: Type,
        /// The item of the enum.
        enum_item: Item,
        /// The underlying object.
        object: CompileMetaStruct,
    },
    /// An enum declaration.
    Enum {
        /// The value type associated with this meta item.
        type_of: Type,
        /// The item of the enum.
        item: Item,
    },
    /// A function declaration.
    Function {
        /// The value type associated with this meta item.
        type_of: Type,
        /// The item of the function declaration.
        item: Item,
    },
    /// A closure.
    Closure {
        /// The value type associated with this meta item.
        type_of: Type,
        /// The item of the closure.
        item: Item,
        /// Sequence of captured variables.
        captures: Vec<CompileMetaCapture>,
    },
    /// An async block.
    AsyncBlock {
        /// The value type associated with this meta item.
        type_of: Type,
        /// The item of the async block.
        item: Item,
        /// Sequence of captured variables.
        captures: Vec<CompileMetaCapture>,
    },
    /// A constant declaration.
    Const {
        /// The evaluated constant value.
        const_value: ConstValue,
        /// The item for the constant expression.
        item: Item,
    },
    /// A macro.
    Macro {
        /// The item of the macro.
        item: Item,
    },
}

/// The item path a metadata record is keyed by.
pub open spec fn kind_item(kind: CompileMetaKind) -> Seq<ComponentV> {
    match kind {
        CompileMetaKind::Tuple { tuple, .. } => tuple.item@,
        CompileMetaKind::TupleVariant { tuple, .. } => tuple.item@,
        CompileMetaKind::Struct { object, .. } => object.item@,
        CompileMetaKind::ObjectVariant { object, .. } => object.item@,
        CompileMetaKind::Enum { item, .. } => item@,
        CompileMetaKind::Function { item, .. } => item@,
        CompileMetaKind::Closure { item, .. } => item@,
        CompileMetaKind::AsyncBlock { item, .. } => item@,
        CompileMetaKind::Const { item, .. } => item@,
        CompileMetaKind::Macro { item, .. } => item@,
    }
}

/// The kind word `describe` renders before the item path.
pub open spec fn spec_meta_tag(kind: CompileMetaKind) -> Seq<char> {
    match kind {
        CompileMetaKind::Tuple { .. } => seq!['s', 't', 'r', 'u', 'c', 't', ' '],
        CompileMetaKind::TupleVariant { .. } => seq!['v', 'a', 'r', 'i', 'a', 'n', 't', ' '],
        CompileMetaKind::Struct { .. } => seq!['s', 't', 'r', 'u', 'c', 't', ' '],
        CompileMetaKind::ObjectVariant { .. } => seq!['v', 'a', 'r', 'i', 'a', 'n', 't', ' '],
        CompileMetaKind::Enum { .. } => seq!['e', 'n', 'u', 'm', ' '],
        CompileMetaKind::Function { .. } => seq!['f', 'n', ' '],
        CompileMetaKind::Closure { .. } => seq!['c', 'l', 'o', 's', 'u', 'r', 'e', ' '],
        CompileMetaKind::AsyncBlock { .. } => seq![
            'a',
            's',
            'y',
            'n',
            'c',
            ' ',
            'b',
            'l',
            'o',
            'c',
            'k',
            ' ',
        ],
        CompileMetaKind::Const { .. } => seq!['c', 'o', 'n', 's', 't', ' '],
        CompileMetaKind::Macro { .. } => seq!['m', 'a', 'c', 'r', 'o', ' '],
    }
}

/// The value type a metadata record carries, when it has one.
pub open spec fn kind_type_of(kind: CompileMetaKind) -> Option<Type> {
    match kind {
        CompileMetaKind::Tuple { type_of, .. } => Some(type_of),
        CompileMetaKind::TupleVariant { .. } => None,
        CompileMetaKind::Struct { type_of, .. } => Some(type_of),
        CompileMetaKind::ObjectVariant { .. } => None,
        CompileMetaKind::Enum { type_of, .. } => Some(type_of),
        CompileMetaKind::Function { type_of, .. } => Some(type_of),
        CompileMetaKind::Closure { type_of, .. } => Some(type_of),
        CompileMetaKind::AsyncBlock { type_of, .. } => Some(type_of),
        CompileMetaKind::Const { .. } => None,
        CompileMetaKind::Macro { .. } => None,
    }
}

/// Compile-time metadata about one declaration of a unit.
pub struct CompileMeta {
    /// The kind of the compile meta.
    pub kind: CompileMetaKind,
    /// The source of the meta.
    pub source: Option<CompileSource>,
}

impl CompileMeta {
    /// Get the item of the meta.
    pub fn item(&self) -> (r: &Item)
        ensures
            r@ == kind_item(self.kind),
    {
        match &self.kind {
            CompileMetaKind::Tuple { tuple, .. } => &tuple.item,
            CompileMetaKind::TupleVariant { tuple, .. } => &tuple.item,
            CompileMetaKind::Struct { object, .. } => &object.item,
            CompileMetaKind::ObjectVariant { object, .. } => &object.item,
            CompileMetaKind::Enum { item, .. } => item,
            CompileMetaKind::Function { item, .. } => item,
            CompileMetaKind::Closure { item, .. } => item,
            CompileMetaKind::AsyncBlock { item, .. } => item,
            CompileMetaKind::Const { item, .. } => item,
            CompileMetaKind::Macro { item, .. } => item,
        }
    }

    /// Render the meta as text naming its kind and item, such as
    /// `struct point` or `fn main`.
    pub fn describe(&self) -> (r: String)
        ensures
            r@ == spec_meta_tag(self.kind) + spec_item_text(kind_item(self.kind)),
    {
        let mut out = String::new();
        match &self.kind {
            CompileMetaKind::Tuple { tuple, .. } => {
                proof {
                    reveal_strlit("struct ");
                }
                out.append("struct ");
                let text = tuple.item.display_string();
                out.append(text.as_str());
            }
            CompileMetaKind::TupleVariant { tuple, .. } => {
                proof {
                    reveal_strlit("variant ");
                }
                out.append("variant ");
                let text = tuple.item.display_string();
                out.append(text.as_str());
            }
            CompileMetaKind::Struct { object, .. } => {
                proof {
                    reveal_strlit("struct ");
                }
                out.append("struct ");
                let text = object.item.display_string();
                out.append(text.as_str());
            }
            CompileMetaKind::ObjectVariant { object, .. } => {
                proof {
                    reveal_strlit("variant ");
                }
                out.append("variant ");
                let text = object.item.display_string();
                out.append(text.as_str());
            }
            CompileMetaKind::Enum { item, .. } => {
                proof {
                    reveal_strlit("enum ");
                }
                out.append("enum ");
                let text = item.display_string();
                out.append(text.as_str());
            }
            CompileMetaKind::Function { item, .. } => {
                proof {
                    reveal_strlit("fn ");
                }
                out.append("fn ");
                let text = item.display_string();
                out.append(text.as_str());
            }
            CompileMetaKind::Closure { item, .. } => {
                proof {
                    reveal_strlit("closure ");
                }
                out.append("closure ");
                let text = item.display_string();
                out.append(text.as_str());
            }
            CompileMetaKind::AsyncBlock { item, .. } => {
                proof {
                    reveal_strlit("async block ");
                }
                out.append("async block ");
                let text = item.display_string();
                out.append(text.as_str());
            }
            CompileMetaKind::Const { item, .. } => {
                proof {
                    reveal_strlit("const ");
                }
                out.append("const ");
                let text = item.display_string();
                out.append(text.as_str());
            }
            CompileMetaKind::Macro { item, .. } => {
                proof {
                    reveal_strlit("macro ");
                }
                out.append("macro ");
                let text = item.display_string();
                out.append(text.as_str());
            }
        }
        proof {
            assert(out@ =~= spec_meta_tag(self.kind) + spec_item_text(kind_item(self.kind)));
        }
        out
    }

    /// Get the value type of the meta item.
    pub fn type_of(&self) -> (r: Option<Type>)
        ensures
            r == kind_type_of(self.kind),
    {
        match &self.kind {
            CompileMetaKind::Tuple { type_of, .. } => Some(*type_of),
            CompileMetaKind::TupleVariant { .. } => None,
            CompileMetaKind::Struct { type_of, .. } => Some(*type_of),
            CompileMetaKind::ObjectVariant { .. } => None,
            CompileMetaKind::Enum { type_of, .. } => Some(*type_of),
            CompileMetaKind::Function { type_of, .. } => Some(*type_of),
            CompileMetaKind::Closure { type_of, .. } => Some(*type_of),
            CompileMetaKind::AsyncBlock { type_of, .. } => Some(*type_of),
            CompileMetaKind::Const { .. } => None,
            CompileMetaKind::Macro { .. } => None,
        }
    }
}

} // verus!
