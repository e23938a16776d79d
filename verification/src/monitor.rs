//! The monitor data model: the raw entity returned by the platform's search
//! query, its tagged metadata, and the flat record written to the manifest.
//! The mapper flattens the tag sequence by a first-occurrence-wins rule on
//! the two meaningful tag keys, `account` and `monitorStatus`.
use vstd::prelude::*;

verus! {

/// The primary entity-search query: all synthetic monitors, projected onto
/// the outline fields this exporter consumes.
pub const QUERY: &'static str = r#"{
  actor {
    entitySearch(query: "domain = 'SYNTH' AND type = 'MONITOR'") {
      results {
        entities {
          ... on SyntheticMonitorEntityOutline {
            name
            accountId
            guid
            monitorType
            monitoredUrl
            period
            tags {
              key
              values
            }
          }
        }
      }
    }
  }
}"#;

/// Mathematical model of one tag: a key with its ordered values.
#[verifier::ext_equal]
pub ghost struct TagModel {
    pub key: Seq<char>,
    pub values: Seq<Seq<char>>,
}

/// One tag attached to an entity: a key and a sequence of values, of which
/// only the first is meaningful to the mapper.
#[derive(Debug)]
pub struct Tag {
    pub key: String,
    pub values: Vec<String>,
}

impl Clone for Tag {
    fn clone(&self) -> (res: Self)
        ensures
            res@ == self@,
    {
        let values = self.values.clone();
        proof {
            assert(values.deep_view() =~= self.values.deep_view());
        }
        Tag { key: self.key.clone(), values }
    }
}

impl View for Tag {
    type V = TagModel;

    open spec fn view(&self) -> TagModel {
        TagModel { key: self.key@, values: self.values.deep_view() }
    }
}

impl DeepView for Tag {
    type V = TagModel;

    open spec fn deep_view(&self) -> TagModel {
        self@
    }
}

/// Mathematical model of one raw entity.
#[verifier::ext_equal]
pub ghost struct EntityModel {
    pub account_id: u32,
    pub monitor_type: Seq<char>,
    pub monitored_url: Option<Seq<char>>,
    pub name: Seq<char>,
    pub period: u32,
    pub tags: Seq<TagModel>,
    pub guid: Seq<char>,
}

/// One synthetic monitor as returned by the primary query.
#[derive(Debug)]
pub struct Entity {
    pub account_id: u32,
    pub monitor_type: String,
    pub monitored_url: Option<String>,
    pub name: String,
    pub period: u32,
    pub tags: Vec<Tag>,
    pub guid: String,
}

impl View for Entity {
    type V = EntityModel;

    open spec fn view(&self) -> EntityModel {
        EntityModel {
            account_id: self.account_id,
            monitor_type: self.monitor_type@,
            monitored_url: self.monitored_url.deep_view(),
            name: self.name@,
            period: self.period,
            tags: self.tags.deep_view(),
            guid: self.guid@,
        }
    }
}

impl DeepView for Entity {
    type V = EntityModel;

    open spec fn deep_view(&self) -> EntityModel {
        self@
    }
}

impl Clone for Entity {
    fn clone(&self) -> (res: Self)
        ensures
            res@ == self@,
    {
        let monitored_url = match &self.monitored_url {
            Some(u) => Some(u.clone()),
            None => None,
        };
        let tags = self.tags.clone();
        proof {
            assert(tags.deep_view() =~= self.tags.deep_view());
        }
        let res = Entity {
            account_id: self.account_id,
            monitor_type: self.monitor_type.clone(),
            monitored_url,
            name: self.name.clone(),
            period: self.period,
            tags,
            guid: self.guid.clone(),
        };
        proof {
            assert(res@ =~= self@);
        }
        res
    }
}

/// Mathematical model of one flat manifest record.
#[verifier::ext_equal]
pub ghost struct MonitorModel {
    pub account: Option<Seq<char>>,
    pub account_id: u32,
    pub name: Seq<char>,
    pub monitor_type: Seq<char>,
    pub monitored_url: Option<Seq<char>>,
    pub period: u32,
    pub monitor_status: Option<Seq<char>>,
    pub guid: Seq<char>,
}

/// The flattened, manifest-ready form of an entity: the scalar fields plus
/// the two fields extracted from the tags.
#[derive(Debug)]
pub struct Monitor {
    pub account: Option<String>,
    pub account_id: u32,
    pub name: String,
    pub monitor_type: String,
    pub monitored_url: Option<String>,
    pub period: u32,
    pub monitor_status: Option<String>,
    pub guid: String,
}

impl View for Monitor {
    type V = MonitorModel;

    open spec fn view(&self) -> MonitorModel {
        MonitorModel {
            account: self.account.deep_view(),
            account_id: self.account_id,
            name: self.name@,
            monitor_type: self.monitor_type@,
            monitored_url: self.monitored_url.deep_view(),
            period: self.period,
            monitor_status: self.monitor_status.deep_view(),
            guid: self.guid@,
        }
    }
}

/// The value extracted from a tag sequence for a key: the first value of the
/// first tag whose key matches, absent when no tag matches or the matching
/// tag carries no value.
pub open spec fn first_value(tags: Seq<TagModel>, key: Seq<char>) -> Option<Seq<char>>
    decreases tags.len(),
{
    if tags.len() == 0 {
        None
    } else if tags[0].key == key {
        if tags[0].values.len() > 0 {
            Some(tags[0].values[0])
        } else {
            None
        }
    } else {
        first_value(tags.drop_first(), key)
    }
}

/// Some tag of the sequence carries this key.
pub open spec fn has_key(tags: Seq<TagModel>, key: Seq<char>) -> bool {
    exists|j: int| 0 <= j < tags.len() && tags[j].key == key
}

/// A key that no tag carries extracts no value.
pub proof fn lemma_absent_key(tags: Seq<TagModel>, key: Seq<char>)
    requires
        !has_key(tags, key),
    ensures
        first_value(tags, key) is None,
    decreases tags.len(),
{
    if tags.len() > 0 {
        assert(tags[0].key != key);
        assert(!has_key(tags.drop_first(), key)) by {
            if has_key(tags.drop_first(), key) {
                let j = choose|j: int|
                    0 <= j < tags.drop_first().len() && tags.drop_first()[j].key == key;
                assert(tags[j + 1].key == key);
            }
        }
        lemma_absent_key(tags.drop_first(), key);
    }
}

/// The first occurrence of a key decides the extracted value: when the tag at
/// position `i` is the earliest one carrying the key, the extracted value is
/// that tag's first value, and every later occurrence is ignored.
pub proof fn lemma_first_occurrence_wins(tags: Seq<TagModel>, key: Seq<char>, i: int)
    requires
        0 <= i < tags.len(),
        tags[i].key == key,
        forall|j: int| 0 <= j < i ==> tags[j].key != key,
    ensures
        first_value(tags, key) == if tags[i].values.len() > 0 {
            Some(tags[i].values[0])
        } else {
            None
        },
    decreases i,
{
    if i == 0 {
    } else {
        assert(tags[0].key != key);
        assert(tags.drop_first()[i - 1].key == key);
        lemma_first_occurrence_wins(tags.drop_first(), key, i - 1);
    }
}

/// The flat record that the mapper produces for an entity: the scalar fields
/// carried over, and the two tag-derived fields extracted by
/// first-occurrence-wins on the keys `account` and `monitorStatus`.
pub open spec fn monitor_of(e: EntityModel) -> MonitorModel {
    MonitorModel {
        account: first_value(e.tags, "account"@),
        account_id: e.account_id,
        name: e.name,
        monitor_type: e.monitor_type,
        monitored_url: e.monitored_url,
        period: e.period,
        monitor_status: first_value(e.tags, "monitorStatus"@),
        guid: e.guid,
    }
}

/// The mapper is a pure function of the entity's model: equal inputs always
/// yield the identical record, so mapping an entity twice cannot disagree
/// with itself.
pub proof fn lemma_map_pure(e1: EntityModel, e2: EntityModel)
    requires
        e1 == e2,
    ensures
        monitor_of(e1) == monitor_of(e2),
{
}

fn extract_first_value(tags: &Vec<Tag>, key: &str) -> (r: Option<String>)
    ensures
        r.deep_view() == first_value(tags.deep_view(), key@),
{
    let ghost tm = tags.deep_view();
    let n: usize = tags.len();
    let mut i: usize = 0;
    while i < n
        invariant
            n == tm.len(),
            tm == tags.deep_view(),
            0 <= i <= n,
            forall|j: int| 0 <= j < i ==> tm[j].key != key@,
        decreases n - i,
    {
        if crate::strutil::str_eq(tags[i].key.as_str(), key) {
            proof {
                lemma_first_occurrence_wins(tm, key@, i as int);
            }
            if tags[i].values.len() > 0 {
                let v = tags[i].values[0].clone();
                return Some(v);
            } else {
                return None;
            }
        }
        i = i + 1;
    }
    proof {
        lemma_absent_key(tm, key@);
    }
    None
}

impl Monitor {
    /// Flattens a raw entity into a manifest record: scalar fields are kept,
    /// and `account` and `monitorStatus` are taken from the first matching
    /// tag of the entity's tag sequence.
    pub fn from(entity: Entity) -> (m: Monitor)
        ensures
            m@ == monitor_of(entity@),
    {
        let account = extract_first_value(&entity.tags, "account");
        let monitor_status = extract_first_value(&entity.tags, "monitorStatus");
        let m = Monitor {
            account,
            account_id: entity.account_id,
            name: entity.name,
            monitor_type: entity.monitor_type,
            monitored_url: entity.monitored_url,
            period: entity.period,
            monitor_status,
            guid: entity.guid,
        };
        proof {
            assert(m@ =~= monitor_of(entity@));
        }
        m
    }
}

} // verus!
