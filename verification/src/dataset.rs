//! The dataset model.
use vstd::prelude::*;
use crate::datetime::{now_micros, DateTime};
use crate::identifier::{uuid_variant, uuid_version, Uuid, new_v4_uuid};
use crate::json::{JsonMap, JsonValueView};
use crate::hook::ModelHooks;
use crate::model::Model;
use crate::validation::{parse_result_view, parsed_string, parsed_uuid, Validation};

verus! {

/// The dataset model.
pub struct Dataset {
    // Basic fields.
    id: Uuid,
    name: String,
    namespace: String,
    visibility: String,
    status: String,
    description: String,
    // Info fields.
    project_id: Uuid,
    task_id: Option<Uuid>,
    valid_from: DateTime,
    expires_at: DateTime,
    tags: Vec<Uuid>,
    // Extensions.
    content: JsonMap,
    metrics: JsonMap,
    extras: JsonMap,
    // Revisions.
    manager_id: Uuid,
    maintainer_id: Uuid,
    created_at: DateTime,
    updated_at: DateTime,
    version: u64,
    edition: u32,
}

/// The fields of a dataset, as plain values.
pub struct DatasetFields {
    pub id: Uuid,
    pub name: String,
    pub namespace: String,
    pub visibility: String,
    pub status: String,
    pub description: String,
    pub project_id: Uuid,
    pub task_id: Option<Uuid>,
    pub valid_from: DateTime,
    pub expires_at: DateTime,
    pub tags: Vec<Uuid>,
    pub content: JsonMap,
    pub metrics: JsonMap,
    pub extras: JsonMap,
    pub manager_id: Uuid,
    pub maintainer_id: Uuid,
    pub created_at: DateTime,
    pub updated_at: DateTime,
    pub version: u64,
    pub edition: u32,
}

/// What the fields of a dataset denote.
pub open spec fn fields_view(f: DatasetFields) -> DatasetView {
    DatasetView {
        id: f.id,
        name: f.name@,
        namespace: f.namespace@,
        visibility: f.visibility@,
        status: f.status@,
        description: f.description@,
        project_id: f.project_id,
        task_id: f.task_id,
        valid_from: f.valid_from,
        expires_at: f.expires_at,
        tags: f.tags@,
        content: f.content@,
        metrics: f.metrics@,
        extras: f.extras@,
        manager_id: f.manager_id,
        maintainer_id: f.maintainer_id,
        created_at: f.created_at,
        updated_at: f.updated_at,
        version: f.version,
        edition: f.edition,
    }
}

/// What a dataset denotes.
pub struct DatasetView {
    pub id: u128,
    pub name: Seq<char>,
    pub namespace: Seq<char>,
    pub visibility: Seq<char>,
    pub status: Seq<char>,
    pub description: Seq<char>,
    pub project_id: u128,
    pub task_id: Option<u128>,
    pub valid_from: i64,
    pub expires_at: i64,
    pub tags: Seq<u128>,
    pub content: Map<Seq<char>, JsonValueView>,
    pub metrics: Map<Seq<char>, JsonValueView>,
    pub extras: Map<Seq<char>, JsonValueView>,
    pub manager_id: u128,
    pub maintainer_id: u128,
    pub created_at: i64,
    pub updated_at: i64,
    pub version: u64,
    pub edition: u32,
}

impl View for Dataset {
    type V = DatasetView;

    closed spec fn view(&self) -> DatasetView {
        DatasetView {
            id: self.id,
            name: self.name@,
            namespace: self.namespace@,
            visibility: self.visibility@,
            status: self.status@,
            description: self.description@,
            project_id: self.project_id,
            task_id: self.task_id,
            valid_from: self.valid_from,
            expires_at: self.expires_at,
            tags: self.tags@,
            content: self.content@,
            metrics: self.metrics@,
            extras: self.extras@,
            manager_id: self.manager_id,
            maintainer_id: self.maintainer_id,
            created_at: self.created_at,
            updated_at: self.updated_at,
            version: self.version,
            edition: self.edition,
        }
    }
}

/// The value of a JSON object under a key, if it holds one.
pub open spec fn map_get(m: Map<Seq<char>, JsonValueView>, key: Seq<char>) -> Option<JsonValueView> {
    if m.contains_key(key) {
        Some(m[key])
    } else {
        None
    }
}

/// A dataset whose fields are all empty, apart from its id and its times.
pub open spec fn is_blank(d: DatasetView) -> bool {
    &&& d.name == Seq::<char>::empty()
    &&& d.namespace == Seq::<char>::empty()
    &&& d.visibility == Seq::<char>::empty()
    &&& d.status == Seq::<char>::empty()
    &&& d.description == Seq::<char>::empty()
    &&& d.project_id == 0
    &&& d.task_id is None
    &&& d.tags == Seq::<u128>::empty()
    &&& d.content == Map::<Seq<char>, JsonValueView>::empty()
    &&& d.metrics == Map::<Seq<char>, JsonValueView>::empty()
    &&& d.extras == Map::<Seq<char>, JsonValueView>::empty()
    &&& d.manager_id == 0
    &&& d.maintainer_id == 0
    &&& d.version == 0
    &&& d.edition == 0
}

/// The dataset after reading an object `data` whose id field parsed as `id`.
pub open spec fn read_dataset(
    d: DatasetView,
    id: Option<Result<u128, Seq<char>>>,
    data: Map<Seq<char>, JsonValueView>,
) -> DatasetView {
    let id = match id {
        Some(Ok(v)) => v,
        _ => d.id,
    };
    let name = match parsed_string(map_get(data, "name"@)) {
        Some(s) => s,
        None => d.name,
    };
    DatasetView { id, name, ..d }
}

/// The failures of reading an object `data` whose id field parsed as `id`:
/// the id's parse error, and an empty name.
pub open spec fn read_failures(
    d: DatasetView,
    id: Option<Result<u128, Seq<char>>>,
    data: Map<Seq<char>, JsonValueView>,
) -> Map<Seq<char>, JsonValueView> {
    let after_id = match id {
        Some(Err(e)) => Map::<Seq<char>, JsonValueView>::empty().insert("id"@, JsonValueView::Text(e)),
        _ => Map::<Seq<char>, JsonValueView>::empty(),
    };
    if read_dataset(d, id, data).name.len() == 0 {
        after_id.insert("name"@, JsonValueView::Text("should be nonempty"@))
    } else {
        after_id
    }
}

/// The order in which reading an object reports its failures: the id first,
/// when it does not parse, then the name, when it is empty.
pub open spec fn read_failure_order(
    d: DatasetView,
    id: Option<Result<u128, Seq<char>>>,
    data: Map<Seq<char>, JsonValueView>,
) -> Seq<Seq<char>> {
    let id_failed = if id matches Some(Err(_)) {
        seq!["id"@]
    } else {
        Seq::<Seq<char>>::empty()
    };
    if read_dataset(d, id, data).name.len() == 0 {
        id_failed.push("name"@)
    } else {
        id_failed
    }
}

impl Dataset {
    /// Reads the name from `data`, and takes the id as it was parsed from `data`.
    /// Reports the id's parse error under `id`, and an empty name under `name`.
    pub fn read_parsed_map(&mut self, id: Option<Result<u128, String>>, data: &JsonMap) -> (r: Validation)
        ensures
            final(self)@ == read_dataset(old(self)@, parse_result_view(id), data@),
            r@ == read_failures(old(self)@, parse_result_view(id), data@),
            r.failed_order() == read_failure_order(old(self)@, parse_result_view(id), data@),
    {
        proof {
            reveal_strlit("id");
            reveal_strlit("name");
            assert("id"@.len() == 2);
            assert("name"@.len() == 4);
            assert("id"@ != "name"@);
        }
        let mut validation = Validation::new();
        match id {
            Some(Ok(v)) => {
                self.id = v;
            },
            Some(Err(e)) => {
                validation.record_fail("id".to_owned(), e);
            },
            None => {},
        }
        if let Some(name) = Validation::parse_string(data.get("name")) {
            self.name = name;
        }
        if self.name.as_str().is_empty() {
            validation.record_fail("name".to_owned(), "should be nonempty".to_owned());
        }
        validation
    }

    /// A dataset with the given fields.
    pub fn from_fields(f: DatasetFields) -> (r: Dataset)
        ensures
            r@ == fields_view(f),
    {
        Dataset {
            id: f.id,
            name: f.name,
            namespace: f.namespace,
            visibility: f.visibility,
            status: f.status,
            description: f.description,
            project_id: f.project_id,
            task_id: f.task_id,
            valid_from: f.valid_from,
            expires_at: f.expires_at,
            tags: f.tags,
            content: f.content,
            metrics: f.metrics,
            extras: f.extras,
            manager_id: f.manager_id,
            maintainer_id: f.maintainer_id,
            created_at: f.created_at,
            updated_at: f.updated_at,
            version: f.version,
            edition: f.edition,
        }
    }

    /// The fields of the dataset.
    pub fn into_fields(self) -> (r: DatasetFields)
        ensures
            fields_view(r) == self@,
    {
        DatasetFields {
            id: self.id,
            name: self.name,
            namespace: self.namespace,
            visibility: self.visibility,
            status: self.status,
            description: self.description,
            project_id: self.project_id,
            task_id: self.task_id,
            valid_from: self.valid_from,
            expires_at: self.expires_at,
            tags: self.tags,
            content: self.content,
            metrics: self.metrics,
            extras: self.extras,
            manager_id: self.manager_id,
            maintainer_id: self.maintainer_id,
            created_at: self.created_at,
            updated_at: self.updated_at,
            version: self.version,
            edition: self.edition,
        }
    }

    /// The id.
    pub fn id(&self) -> (r: Uuid)
        ensures
            r == self@.id,
    {
        self.id
    }

    /// The name.
    pub fn name(&self) -> (r: &String)
        ensures
            r@ == self@.name,
    {
        &self.name
    }
}

impl Default for Dataset {
    /// A dataset with every field empty or zero, stamped with the current time.
    fn default() -> (r: Dataset)
        ensures
            is_blank(r@),
            r@.id == 0,
            r@.valid_from >= 0,
            r@.expires_at >= 0,
            r@.created_at >= 0,
            r@.updated_at >= 0,
    {
        Dataset {
            id: 0,
            name: String::new(),
            namespace: String::new(),
            visibility: String::new(),
            status: String::new(),
            description: String::new(),
            project_id: 0,
            task_id: None,
            valid_from: now_micros(),
            expires_at: now_micros(),
            tags: Vec::new(),
            content: JsonMap::new(),
            metrics: JsonMap::new(),
            extras: JsonMap::new(),
            manager_id: 0,
            maintainer_id: 0,
            created_at: now_micros(),
            updated_at: now_micros(),
            version: 0,
            edition: 0,
        }
    }
}

impl Model for Dataset {
    open spec fn spec_model_name() -> Seq<char> {
        "dataset"@
    }

    fn model_name() -> (name: &'static str) {
        "dataset"
    }

    /// A blank dataset with a fresh random id.
    fn new() -> (r: Dataset)
        ensures
            is_blank(r@),
            uuid_version(r@.id) == 4,
            uuid_variant(r@.id) == 2,
            r@.valid_from >= 0,
            r@.expires_at >= 0,
            r@.created_at >= 0,
            r@.updated_at >= 0,
    {
        let mut d = Dataset::default();
        d.id = new_v4_uuid();
        d
    }

    fn read_map(&mut self, data: JsonMap) -> (r: Validation)
        ensures
            final(self)@ == read_dataset(old(self)@, parsed_uuid(map_get(data@, "id"@)), data@),
            r@ == read_failures(old(self)@, parsed_uuid(map_get(data@, "id"@)), data@),
            r.failed_order() == read_failure_order(old(self)@, parsed_uuid(map_get(data@, "id"@)), data@),
    {
        let id = Validation::parse_uuid(data.get("id"));
        self.read_parsed_map(id, &data)
    }
}

/// The extension data of a dataset: none.
#[derive(Debug, Clone, Copy, PartialEq, Eq, Structural)]
pub struct NoExtension;

/// The dataset keeps every default hook.
impl ModelHooks for Dataset {
    type Data = ();
    type Extension = NoExtension;
}

} // verus!
