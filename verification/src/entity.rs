use vstd::prelude::*;

verus! {

/// Mathematical model of an entity's capability set.
#[verifier::ext_equal]
pub ghost struct MetaModel {
    pub table: Seq<char>,
    pub primary_key: Seq<char>,
    pub columns: Seq<Seq<char>>,
}

/// The capability set a persisted entity type must expose to this layer:
/// its table identifier, its primary-key column, and the columns a query
/// projects. The concrete record types themselves stay outside this layer;
/// the verbs are polymorphic over this description.
pub struct EntityMeta {
    pub table: String,
    pub primary_key: String,
    pub columns: Vec<String>,
}

impl View for EntityMeta {
    type V = MetaModel;

    open spec fn view(&self) -> MetaModel {
        MetaModel {
            table: self.table@,
            primary_key: self.primary_key@,
            columns: self.columns@.map_values(|c: String| c@),
        }
    }
}

} // verus!
