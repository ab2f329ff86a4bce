//! The shape of the vector collection: its vector spaces and payload indexes.

use vstd::prelude::*;

verus! {

/// How two vectors of a space are compared.
#[derive(Debug, PartialEq, Eq, Structural, Clone, Copy)]
pub enum Distance {
    Cosine,
    Euclid,
    Dot,
}

/// The named vector spaces of the collection.
#[derive(Debug, PartialEq, Eq, Structural, Clone, Copy)]
pub enum VectorSpace {
    Dense384,
    Dense768,
    Dense1024,
    Dense1536,
    Sparse,
}

/// Binary quantization of a dense space.
#[derive(Debug, PartialEq, Eq, Structural, Clone, Copy)]
pub struct BinaryQuantization {
    /// Keep the quantized vectors in memory at all times.
    pub always_ram: Option<bool>,
}

/// The parameters of a dense vector space.
#[derive(Debug, PartialEq, Eq, Structural, Clone, Copy)]
pub struct DenseSpace {
    pub space: VectorSpace,
    /// The number of components of a vector.
    pub size: u64,
    pub distance: Distance,
    pub quantization: Option<BinaryQuantization>,
    /// Keep the raw vectors on disk.
    pub on_disk: Option<bool>,
}

/// The parameters of a sparse vector space.
#[derive(Debug, PartialEq, Eq, Structural, Clone, Copy)]
pub struct SparseSpace {
    pub space: VectorSpace,
    /// Keep the index on disk.
    pub index_on_disk: Option<bool>,
}

/// Settings of the graph index.
#[derive(Debug, PartialEq, Eq, Structural, Clone, Copy)]
pub struct HnswSettings {
    /// Edges per node in the global graph.
    pub m: Option<u64>,
    /// Edges per node in the graph of a payload group.
    pub payload_m: Option<u64>,
}

/// The payload fields that carry an index.
#[derive(Debug, PartialEq, Eq, Structural, Clone, Copy)]
pub enum PayloadField {
    Link,
    TagSet,
    DatasetId,
    ChunkHtml,
    Metadata,
    TimeStamp,
    GroupIds,
}

/// The kind of a payload index.
#[derive(Debug, PartialEq, Eq, Structural, Clone, Copy)]
pub enum FieldKind {
    Keyword,
    Integer,
    Text,
}

/// How a text index cuts a text into tokens.
#[derive(Debug, PartialEq, Eq, Structural, Clone, Copy)]
pub enum Tokenizer {
    Prefix,
    Whitespace,
    Word,
}

/// Settings of a text index.
#[derive(Debug, PartialEq, Eq, Structural, Clone, Copy)]
pub struct TextIndex {
    pub tokenizer: Tokenizer,
    pub min_token_len: Option<u64>,
    pub max_token_len: Option<u64>,
    pub lowercase: Option<bool>,
}

/// A payload index to create.
#[derive(Debug, PartialEq, Eq, Structural, Clone, Copy)]
pub struct FieldIndex {
    pub field: PayloadField,
    pub kind: FieldKind,
    /// Settings of a text index, where they differ from the defaults.
    pub text: Option<TextIndex>,
}

/// What a collection is created with.
#[derive(Debug, Clone, PartialEq, Eq)]
pub struct CollectionSchema {
    pub collection_name: String,
    pub dense: Vec<DenseSpace>,
    pub sparse: Vec<SparseSpace>,
    pub hnsw: HnswSettings,
}

/// The mathematical content of a [`CollectionSchema`].
pub struct CollectionSchemaView {
    pub collection_name: Seq<char>,
    pub dense: Seq<DenseSpace>,
    pub sparse: Seq<SparseSpace>,
    pub hnsw: HnswSettings,
}

impl View for CollectionSchema {
    type V = CollectionSchemaView;

    open spec fn view(&self) -> CollectionSchemaView {
        CollectionSchemaView {
            collection_name: self.collection_name@,
            dense: self.dense@,
            sparse: self.sparse@,
            hnsw: self.hnsw,
        }
    }
}

/// The name of a vector space on the wire.
pub open spec fn space_name(space: VectorSpace) -> Seq<char> {
    match space {
        VectorSpace::Dense384 => "384_vectors"@,
        VectorSpace::Dense768 => "768_vectors"@,
        VectorSpace::Dense1024 => "1024_vectors"@,
        VectorSpace::Dense1536 => "1536_vectors"@,
        VectorSpace::Sparse => "sparse_vectors"@,
    }
}

/// The name of a payload field on the wire.
pub open spec fn field_name(field: PayloadField) -> Seq<char> {
    match field {
        PayloadField::Link => "link"@,
        PayloadField::TagSet => "tag_set"@,
        PayloadField::DatasetId => "dataset_id"@,
        PayloadField::ChunkHtml => "chunk_html"@,
        PayloadField::Metadata => "metadata"@,
        PayloadField::TimeStamp => "time_stamp"@,
        PayloadField::GroupIds => "group_ids"@,
    }
}

/// A dense space compared by cosine distance, with no settings of its own.
pub open spec fn plain_space(space: VectorSpace, size: u64) -> DenseSpace {
    DenseSpace { space, size, distance: Distance::Cosine, quantization: None, on_disk: None }
}

/// The four dense spaces: 384, 768, 1024 and 1536 components, all compared
/// by cosine distance. The space of 1024 components is quantized to bits
/// that stay in memory, with the raw vectors on disk.
pub open spec fn dense_spaces() -> Seq<DenseSpace> {
    seq![
        plain_space(VectorSpace::Dense384, 384),
        plain_space(VectorSpace::Dense768, 768),
        DenseSpace {
            space: VectorSpace::Dense1024,
            size: 1024,
            distance: Distance::Cosine,
            quantization: Some(BinaryQuantization { always_ram: Some(true) }),
            on_disk: Some(true),
        },
        plain_space(VectorSpace::Dense1536, 1536),
    ]
}

/// The one sparse space, with its index in memory.
pub open spec fn sparse_spaces() -> Seq<SparseSpace> {
    seq![SparseSpace { space: VectorSpace::Sparse, index_on_disk: Some(false) }]
}

/// The graph is built per payload group: no global edges, 16 per group.
pub open spec fn graph_settings() -> HnswSettings {
    HnswSettings { m: Some(0), payload_m: Some(16) }
}

/// The schema of the collection `name`.
pub open spec fn schema_of(name: Seq<char>) -> CollectionSchemaView {
    CollectionSchemaView {
        collection_name: name,
        dense: dense_spaces(),
        sparse: sparse_spaces(),
        hnsw: graph_settings(),
    }
}

/// An index with the defaults of its kind.
pub open spec fn plain_index(field: PayloadField, kind: FieldKind) -> FieldIndex {
    FieldIndex { field, kind, text: None }
}

/// The payload indexes, in the order of their creation. The index of
/// `chunk_html` cuts at whitespace, keeps tokens of 2 to 10 characters and
/// lowers their case.
pub open spec fn field_indexes() -> Seq<FieldIndex> {
    seq![
        plain_index(PayloadField::Link, FieldKind::Text),
        plain_index(PayloadField::TagSet, FieldKind::Text),
        plain_index(PayloadField::DatasetId, FieldKind::Keyword),
        FieldIndex {
            field: PayloadField::ChunkHtml,
            kind: FieldKind::Text,
            text: Some(
                TextIndex {
                    tokenizer: Tokenizer::Whitespace,
                    min_token_len: Some(2),
                    max_token_len: Some(10),
                    lowercase: Some(true),
                },
            ),
        },
        plain_index(PayloadField::Metadata, FieldKind::Keyword),
        plain_index(PayloadField::TimeStamp, FieldKind::Integer),
        plain_index(PayloadField::GroupIds, FieldKind::Keyword),
    ]
}

impl VectorSpace {
    /// The name of the space on the wire.
    pub fn name(&self) -> (name: &'static str)
        ensures
            name@ == space_name(*self),
    {
        match self {
            VectorSpace::Dense384 => "384_vectors",
            VectorSpace::Dense768 => "768_vectors",
            VectorSpace::Dense1024 => "1024_vectors",
            VectorSpace::Dense1536 => "1536_vectors",
            VectorSpace::Sparse => "sparse_vectors",
        }
    }

    /// The dense space for vectors of `size` components, if there is one.
    pub fn for_dimension(size: usize) -> (space: Option<VectorSpace>)
        ensures
            space == match size {
                384 => Some(VectorSpace::Dense384),
                768 => Some(VectorSpace::Dense768),
                1024 => Some(VectorSpace::Dense1024),
                1536 => Some(VectorSpace::Dense1536),
                _ => None,
            },
    {
        if size == 384 {
            Some(VectorSpace::Dense384)
        } else if size == 768 {
            Some(VectorSpace::Dense768)
        } else if size == 1024 {
            Some(VectorSpace::Dense1024)
        } else if size == 1536 {
            Some(VectorSpace::Dense1536)
        } else {
            None
        }
    }
}

impl PayloadField {
    /// The name of the field on the wire.
    pub fn name(&self) -> (name: &'static str)
        ensures
            name@ == field_name(*self),
    {
        match self {
            PayloadField::Link => "link",
            PayloadField::TagSet => "tag_set",
            PayloadField::DatasetId => "dataset_id",
            PayloadField::ChunkHtml => "chunk_html",
            PayloadField::Metadata => "metadata",
            PayloadField::TimeStamp => "time_stamp",
            PayloadField::GroupIds => "group_ids",
        }
    }
}

fn dense(space: VectorSpace, size: u64) -> (params: DenseSpace)
    ensures
        params == plain_space(space, size),
{
    DenseSpace { space, size, distance: Distance::Cosine, quantization: None, on_disk: None }
}

fn index(field: PayloadField, kind: FieldKind) -> (params: FieldIndex)
    ensures
        params == plain_index(field, kind),
{
    FieldIndex { field, kind, text: None }
}

/// The schema that the collection `name` is created with.
pub fn collection_schema(name: &str) -> (schema: CollectionSchema)
    ensures
        schema@ == schema_of(name@),
{
    let mut spaces: Vec<DenseSpace> = Vec::new();
    spaces.push(dense(VectorSpace::Dense384, 384));
    spaces.push(dense(VectorSpace::Dense768, 768));
    spaces.push(
        DenseSpace {
            space: VectorSpace::Dense1024,
            size: 1024,
            distance: Distance::Cosine,
            quantization: Some(BinaryQuantization { always_ram: Some(true) }),
            on_disk: Some(true),
        },
    );
    spaces.push(dense(VectorSpace::Dense1536, 1536));
    let mut sparse: Vec<SparseSpace> = Vec::new();
    sparse.push(SparseSpace { space: VectorSpace::Sparse, index_on_disk: Some(false) });
    proof {
        assert(spaces@ =~= dense_spaces());
        assert(sparse@ =~= sparse_spaces());
    }
    CollectionSchema {
        collection_name: String::from_str(name),
        dense: spaces,
        sparse,
        hnsw: HnswSettings { m: Some(0), payload_m: Some(16) },
    }
}

/// The payload indexes to create, in the order of their creation.
pub fn payload_indexes() -> (indexes: Vec<FieldIndex>)
    ensures
        indexes@ == field_indexes(),
{
    let mut indexes: Vec<FieldIndex> = Vec::new();
    indexes.push(index(PayloadField::Link, FieldKind::Text));
    indexes.push(index(PayloadField::TagSet, FieldKind::Text));
    indexes.push(index(PayloadField::DatasetId, FieldKind::Keyword));
    indexes.push(
        FieldIndex {
            field: PayloadField::ChunkHtml,
            kind: FieldKind::Text,
            text: Some(
                TextIndex {
                    tokenizer: Tokenizer::Whitespace,
                    min_token_len: Some(2),
                    max_token_len: Some(10),
                    lowercase: Some(true),
                },
            ),
        },
    );
    indexes.push(index(PayloadField::Metadata, FieldKind::Keyword));
    indexes.push(index(PayloadField::TimeStamp, FieldKind::Integer));
    indexes.push(index(PayloadField::GroupIds, FieldKind::Keyword));
    proof {
        assert(indexes@ =~= field_indexes());
    }
    indexes
}

} // verus!
