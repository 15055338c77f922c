use vstd::prelude::*;
use crate::extension::{Extension, ExtensionSetting as DeclaredSetting};
use crate::result::WLResult;
use crate::settings::{ExtensionSetting, Settings};

verus! {

/// What the launcher asks of an extension process.
#[derive(Debug, Clone)]
pub struct ExtensionRequest {
    pub extension_id: String,
    pub action_context: ActionContext,
    pub extension_action: Option<String>,
    pub search_text: Option<String>,
    pub args: Option<Vec<String>>,
}

/// Whether the extension is asked for results or to run one of its actions.
#[derive(Debug, Clone, Copy, PartialEq, Eq, Structural)]
pub enum ActionContext {
    ResultsRequest,
    RunAction,
}

impl ExtensionRequest {
    pub fn new(extension_id: String, action_context: ActionContext) -> (r: Self)
        ensures
            r == (Self { extension_id, action_context, extension_action: None, search_text: None, args: None }),
    {
        Self { extension_id, action_context, extension_action: None, search_text: None, args: None }
    }

    pub fn search_text(self, search_text: String) -> (r: Self)
        ensures
            r == (Self { search_text: Some(search_text), ..self }),
    {
        Self { search_text: Some(search_text), ..self }
    }

    pub fn extension_action(self, extension_action: String) -> (r: Self)
        ensures
            r == (Self { extension_action: Some(extension_action), ..self }),
    {
        Self { extension_action: Some(extension_action), ..self }
    }

    pub fn args(self, args: Vec<String>) -> (r: Self)
        ensures
            r == (Self { args: Some(args), ..self }),
    {
        Self { args: Some(args), ..self }
    }
}

/// What an extension process hands back for a request.
#[derive(Debug, Clone)]
pub struct ExtensionResponse {
    pub results: Vec<WLResult>,
    pub args: Option<Vec<String>>,
}

impl ExtensionResponse {
    pub fn new(results: Vec<WLResult>) -> (r: Self)
        ensures
            r == (Self { results, args: None }),
    {
        Self { results, args: None }
    }

    pub fn args(self, args: Vec<String>) -> (r: Self)
        ensures
            r == (Self { args: Some(args), ..self }),
    {
        Self { args: Some(args), ..self }
    }
}

/// The values a user entered in a dialog, by field id.
#[derive(Debug, Clone)]
pub struct DialogResponse {
    pub results: Vec<DialogResult>,
    pub args: Option<Vec<String>>,
}

#[derive(Debug, Clone)]
pub struct DialogResult {
    pub field_id: String,
    pub field_value: String,
    pub args: Option<Vec<String>>,
}

impl DialogResponse {
    /// The value of the first result for field `field_id`.
    pub fn get_result_value(self, field_id: String) -> (r: Option<String>)
        ensures
            match r {
                Some(v) => exists|i: int|
                    0 <= i < self.results@.len() && (#[trigger] self.results@[i]).field_id@ == field_id@
                        && self.results@[i].field_value@ == v@ && forall|j: int|
                        0 <= j < i ==> (#[trigger] self.results@[j]).field_id@ != field_id@,
                None => forall|i: int|
                    0 <= i < self.results@.len() ==> (#[trigger] self.results@[i]).field_id@ != field_id@,
            },
    {
        let mut i: usize = 0;
        while i < self.results.len()
            invariant
                i <= self.results@.len(),
                forall|j: int| 0 <= j < i ==> (#[trigger] self.results@[j]).field_id@ != field_id@,
            decreases self.results@.len() - i,
        {
            if self.results[i].field_id == field_id {
                return Some(self.results[i].field_value.clone());
            }
            i = i + 1;
        }
        None
    }
}

/// A stored setting as (extension id, setting id, value).
pub open spec fn entry_view(e: ExtensionSetting) -> (Seq<char>, Seq<char>, Seq<char>) {
    (e.extension_id@, e.setting_id@, e.setting_value@)
}

pub open spec fn entries_view(v: Seq<ExtensionSetting>) -> Seq<(Seq<char>, Seq<char>, Seq<char>)> {
    v.map_values(|e: ExtensionSetting| entry_view(e))
}

/// Whether some entry holds setting `sid` of extension `eid`.
pub open spec fn has_setting(
    entries: Seq<(Seq<char>, Seq<char>, Seq<char>)>,
    eid: Seq<char>,
    sid: Seq<char>,
) -> bool {
    exists|i: int| 0 <= i < entries.len() && #[trigger] entries[i].0 == eid && entries[i].1 == sid
}

/// The value of the first entry for setting `sid` of extension `eid`.
pub open spec fn lookup(
    entries: Seq<(Seq<char>, Seq<char>, Seq<char>)>,
    eid: Seq<char>,
    sid: Seq<char>,
) -> Option<Seq<char>>
    decreases entries.len(),
{
    if entries.len() == 0 {
        None
    } else if entries[0].0 == eid && entries[0].1 == sid {
        Some(entries[0].2)
    } else {
        lookup(entries.drop_first(), eid, sid)
    }
}

/// The entries a manifest asks for, with their initial values: its keyword
/// first, then each declared setting at its default.
pub open spec fn declared(ext: Extension) -> Seq<(Seq<char>, Seq<char>, Seq<char>)> {
    seq![(ext.id@, "keyword"@, ext.keyword@)] + match ext.settings {
        Some(v) => v@.map_values(|d: DeclaredSetting| (ext.id@, d.id@, d.default_value@)),
        None => Seq::empty(),
    }
}

/// What a list of manifests asks for, in manifest order.
pub open spec fn declared_all(exts: Seq<Extension>) -> Seq<(Seq<char>, Seq<char>, Seq<char>)>
    decreases exts.len(),
{
    if exts.len() == 0 {
        Seq::empty()
    } else {
        declared_all(exts.drop_last()) + declared(exts.last())
    }
}

/// Each requested entry whose extension and setting ids are not yet present
/// is appended; nothing already present is touched.
pub open spec fn add_missing(
    entries: Seq<(Seq<char>, Seq<char>, Seq<char>)>,
    reqs: Seq<(Seq<char>, Seq<char>, Seq<char>)>,
) -> Seq<(Seq<char>, Seq<char>, Seq<char>)>
    decreases reqs.len(),
{
    if reqs.len() == 0 {
        entries
    } else {
        let prev = add_missing(entries, reqs.drop_last());
        let r = reqs.last();
        if has_setting(prev, r.0, r.1) {
            prev
        } else {
            prev.push(r)
        }
    }
}

/// The stored entries after reconciliation with a list of manifests.
pub open spec fn reconciled(
    entries: Seq<(Seq<char>, Seq<char>, Seq<char>)>,
    exts: Seq<Extension>,
) -> Seq<(Seq<char>, Seq<char>, Seq<char>)> {
    add_missing(entries, declared_all(exts))
}

proof fn lemma_add_missing_split(
    e: Seq<(Seq<char>, Seq<char>, Seq<char>)>,
    a: Seq<(Seq<char>, Seq<char>, Seq<char>)>,
    b: Seq<(Seq<char>, Seq<char>, Seq<char>)>,
)
    ensures
        add_missing(e, a + b) == add_missing(add_missing(e, a), b),
    decreases b.len(),
{
    if b.len() == 0 {
        assert(a + b =~= a);
    } else {
        assert((a + b).drop_last() =~= a + b.drop_last());
        lemma_add_missing_split(e, a, b.drop_last());
    }
}

proof fn lemma_add_missing_prefix(
    e: Seq<(Seq<char>, Seq<char>, Seq<char>)>,
    reqs: Seq<(Seq<char>, Seq<char>, Seq<char>)>,
)
    ensures
        add_missing(e, reqs).len() >= e.len(),
        add_missing(e, reqs).subrange(0, e.len() as int) == e,
        forall|i: int|
            e.len() <= i < add_missing(e, reqs).len() ==> exists|k: int|
                0 <= k < reqs.len() && reqs[k] == #[trigger] add_missing(e, reqs)[i],
    decreases reqs.len(),
{
    if reqs.len() > 0 {
        let prev = add_missing(e, reqs.drop_last());
        lemma_add_missing_prefix(e, reqs.drop_last());
        let r = add_missing(e, reqs);
        assert(r.subrange(0, e.len() as int) =~= e);
        assert forall|i: int| e.len() <= i < r.len() implies exists|k: int|
            0 <= k < reqs.len() && reqs[k] == #[trigger] r[i] by {
            if i < prev.len() {
                let k = choose|k: int| 0 <= k < reqs.drop_last().len() && reqs.drop_last()[k] == prev[i];
                assert(reqs[k] == r[i]);
            } else {
                assert(reqs[reqs.len() - 1] == r[i]);
            }
        }
    }
}

proof fn lemma_has_add_missing(
    e: Seq<(Seq<char>, Seq<char>, Seq<char>)>,
    reqs: Seq<(Seq<char>, Seq<char>, Seq<char>)>,
    eid: Seq<char>,
    sid: Seq<char>,
)
    ensures
        has_setting(add_missing(e, reqs), eid, sid) <==> (has_setting(e, eid, sid) || exists|k: int|
            0 <= k < reqs.len() && #[trigger] reqs[k].0 == eid && reqs[k].1 == sid),
    decreases reqs.len(),
{
    if reqs.len() > 0 {
        let d = reqs.drop_last();
        let prev = add_missing(e, d);
        lemma_has_add_missing(e, d, eid, sid);
        let r = add_missing(e, reqs);
        if has_setting(r, eid, sid) {
            let i = choose|i: int| 0 <= i < r.len() && #[trigger] r[i].0 == eid && r[i].1 == sid;
            if i < prev.len() {
                assert(prev[i] == r[i]);
                if !has_setting(e, eid, sid) {
                    let k = choose|k: int| 0 <= k < d.len() && #[trigger] d[k].0 == eid && d[k].1 == sid;
                    assert(reqs[k] == d[k]);
                }
            } else {
                assert(reqs[reqs.len() - 1].0 == eid);
            }
        }
        if has_setting(e, eid, sid) || exists|k: int|
            0 <= k < reqs.len() && #[trigger] reqs[k].0 == eid && reqs[k].1 == sid {
            if has_setting(prev, eid, sid) {
                let i = choose|i: int| 0 <= i < prev.len() && #[trigger] prev[i].0 == eid && prev[i].1 == sid;
                assert(r[i] == prev[i]);
            } else {
                let k = choose|k: int| 0 <= k < reqs.len() && #[trigger] reqs[k].0 == eid && reqs[k].1 == sid;
                if k < d.len() {
                    assert(d[k] == reqs[k]);
                }
                assert(k == reqs.len() - 1);
                let last = reqs.last();
                if has_setting(prev, last.0, last.1) {
                } else {
                    assert(r[prev.len() as int] == last);
                }
            }
        }
    }
}

proof fn lemma_add_missing_noop(
    e: Seq<(Seq<char>, Seq<char>, Seq<char>)>,
    reqs: Seq<(Seq<char>, Seq<char>, Seq<char>)>,
)
    requires
        forall|k: int| 0 <= k < reqs.len() ==> has_setting(e, #[trigger] reqs[k].0, reqs[k].1),
    ensures
        add_missing(e, reqs) == e,
    decreases reqs.len(),
{
    if reqs.len() > 0 {
        let d = reqs.drop_last();
        assert forall|k: int| 0 <= k < d.len() implies has_setting(e, #[trigger] d[k].0, d[k].1) by {
            assert(d[k] == reqs[k]);
        }
        lemma_add_missing_noop(e, d);
        assert(has_setting(e, reqs[reqs.len() - 1].0, reqs[reqs.len() - 1].1));
    }
}

proof fn lemma_lookup_push(
    e: Seq<(Seq<char>, Seq<char>, Seq<char>)>,
    x: (Seq<char>, Seq<char>, Seq<char>),
    eid: Seq<char>,
    sid: Seq<char>,
)
    ensures
        lookup(e.push(x), eid, sid) == (if has_setting(e, eid, sid) {
            lookup(e, eid, sid)
        } else if x.0 == eid && x.1 == sid {
            Some(x.2)
        } else {
            None
        }),
    decreases e.len(),
{
    if e.len() == 0 {
        assert(e.push(x).drop_first() =~= e);
    } else {
        assert(e.push(x).drop_first() =~= e.drop_first().push(x));
        assert(e.push(x)[0] == e[0]);
        lemma_lookup_push(e.drop_first(), x, eid, sid);
        if e[0].0 == eid && e[0].1 == sid {
            assert(has_setting(e, eid, sid));
        } else {
            if has_setting(e, eid, sid) {
                let i = choose|i: int| 0 <= i < e.len() && #[trigger] e[i].0 == eid && e[i].1 == sid;
                assert(e.drop_first()[i - 1] == e[i]);
            }
            if has_setting(e.drop_first(), eid, sid) {
                let i = choose|i: int| 0 <= i < e.drop_first().len() && #[trigger] e.drop_first()[i].0 == eid
                    && e.drop_first()[i].1 == sid;
                assert(e[i + 1] == e.drop_first()[i]);
            }
        }
    }
}

proof fn lemma_lookup_first(
    e: Seq<(Seq<char>, Seq<char>, Seq<char>)>,
    eid: Seq<char>,
    sid: Seq<char>,
    i: int,
)
    requires
        0 <= i < e.len(),
        e[i].0 == eid && e[i].1 == sid,
        forall|j: int| 0 <= j < i ==> !(#[trigger] e[j].0 == eid && e[j].1 == sid),
    ensures
        lookup(e, eid, sid) == Some(e[i].2),
    decreases e.len(),
{
    if i > 0 {
        assert forall|j: int| 0 <= j < i - 1 implies !(#[trigger] e.drop_first()[j].0 == eid
            && e.drop_first()[j].1 == sid) by {
            assert(e.drop_first()[j] == e[j + 1]);
        }
        assert(!(e[0].0 == eid && e[0].1 == sid));
        lemma_lookup_first(e.drop_first(), eid, sid, i - 1);
    }
}

proof fn lemma_lookup_none(e: Seq<(Seq<char>, Seq<char>, Seq<char>)>, eid: Seq<char>, sid: Seq<char>)
    requires
        !has_setting(e, eid, sid),
    ensures
        lookup(e, eid, sid) is None,
    decreases e.len(),
{
    if e.len() > 0 {
        assert(!(e[0].0 == eid && e[0].1 == sid));
        if has_setting(e.drop_first(), eid, sid) {
            let i = choose|i: int| 0 <= i < e.drop_first().len() && #[trigger] e.drop_first()[i].0 == eid
                && e.drop_first()[i].1 == sid;
            assert(e[i + 1] == e.drop_first()[i]);
        }
        lemma_lookup_none(e.drop_first(), eid, sid);
    }
}

proof fn lemma_lookup_some_has(e: Seq<(Seq<char>, Seq<char>, Seq<char>)>, eid: Seq<char>, sid: Seq<char>)
    requires
        lookup(e, eid, sid) is Some,
    ensures
        has_setting(e, eid, sid),
{
    if !has_setting(e, eid, sid) {
        lemma_lookup_none(e, eid, sid);
    }
}

/// Reconciliation only appends: every stored entry keeps its place and
/// value, and each appended entry is one that a manifest asks for.
pub proof fn lemma_reconcile_appends_only(
    entries: Seq<(Seq<char>, Seq<char>, Seq<char>)>,
    exts: Seq<Extension>,
)
    ensures
        reconciled(entries, exts).len() >= entries.len(),
        reconciled(entries, exts).subrange(0, entries.len() as int) == entries,
        forall|i: int|
            entries.len() <= i < reconciled(entries, exts).len() ==> exists|k: int|
                0 <= k < declared_all(exts).len() && declared_all(exts)[k]
                    == #[trigger] reconciled(entries, exts)[i],
{
    lemma_add_missing_prefix(entries, declared_all(exts));
}

proof fn lemma_declared_ids(exts: Seq<Extension>, k: int)
    requires
        0 <= k < declared_all(exts).len(),
    ensures
        exists|j: int| 0 <= j < exts.len() && #[trigger] exts[j].id@ == declared_all(exts)[k].0,
    decreases exts.len(),
{
    let d = exts.drop_last();
    if k < declared_all(d).len() {
        lemma_declared_ids(d, k);
        let j = choose|j: int| 0 <= j < d.len() && #[trigger] d[j].id@ == declared_all(d)[k].0;
        assert(exts[j] == d[j]);
    } else {
        assert(declared_all(exts)[k].0 == exts[exts.len() - 1].id@);
    }
}

/// An entry of an extension that no manifest declares is neither altered nor
/// joined by new entries of that extension.
pub proof fn lemma_orphans_retained(
    entries: Seq<(Seq<char>, Seq<char>, Seq<char>)>,
    exts: Seq<Extension>,
    eid: Seq<char>,
)
    requires
        forall|j: int| 0 <= j < exts.len() ==> (#[trigger] exts[j]).id@ != eid,
    ensures
        forall|i: int| 0 <= i < entries.len() ==> #[trigger] reconciled(entries, exts)[i] == entries[i],
        forall|i: int|
            entries.len() <= i < reconciled(entries, exts).len() ==> (#[trigger] reconciled(
                entries,
                exts,
            )[i]).0 != eid,
{
    lemma_reconcile_appends_only(entries, exts);
    let r = reconciled(entries, exts);
    assert forall|i: int| 0 <= i < entries.len() implies #[trigger] r[i] == entries[i] by {
        assert(r.subrange(0, entries.len() as int)[i] == r[i]);
    }
    assert forall|i: int| entries.len() <= i < r.len() implies (#[trigger] r[i]).0 != eid by {
        let k = choose|k: int| 0 <= k < declared_all(exts).len() && declared_all(exts)[k] == r[i];
        lemma_declared_ids(exts, k);
    }
}

/// A value already stored for a setting is what a lookup finds after
/// reconciliation: neither a user-edited value nor a keyword is replaced by
/// a manifest default.
pub proof fn lemma_reconcile_preserves_values(
    entries: Seq<(Seq<char>, Seq<char>, Seq<char>)>,
    exts: Seq<Extension>,
    eid: Seq<char>,
    sid: Seq<char>,
)
    requires
        has_setting(entries, eid, sid),
    ensures
        lookup(reconciled(entries, exts), eid, sid) == lookup(entries, eid, sid),
{
    lemma_add_missing_lookup_kept(entries, declared_all(exts), eid, sid);
}

proof fn lemma_add_missing_lookup_kept(
    e: Seq<(Seq<char>, Seq<char>, Seq<char>)>,
    reqs: Seq<(Seq<char>, Seq<char>, Seq<char>)>,
    eid: Seq<char>,
    sid: Seq<char>,
)
    requires
        has_setting(e, eid, sid),
    ensures
        lookup(add_missing(e, reqs), eid, sid) == lookup(e, eid, sid),
    decreases reqs.len(),
{
    if reqs.len() > 0 {
        let prev = add_missing(e, reqs.drop_last());
        lemma_add_missing_lookup_kept(e, reqs.drop_last(), eid, sid);
        lemma_has_add_missing(e, reqs.drop_last(), eid, sid);
        lemma_lookup_push(prev, reqs.last(), eid, sid);
    }
}

/// A setting that is not stored yet is adopted at the default of the first
/// declaration of it, while settings already stored keep their values.
pub proof fn lemma_reconcile_adopts_new_setting(
    entries: Seq<(Seq<char>, Seq<char>, Seq<char>)>,
    exts: Seq<Extension>,
    eid: Seq<char>,
    sid: Seq<char>,
    k: int,
)
    requires
        !has_setting(entries, eid, sid),
        0 <= k < declared_all(exts).len(),
        declared_all(exts)[k].0 == eid && declared_all(exts)[k].1 == sid,
        forall|j: int|
            0 <= j < k ==> !(#[trigger] declared_all(exts)[j].0 == eid && declared_all(exts)[j].1
                == sid),
    ensures
        lookup(reconciled(entries, exts), eid, sid) == Some(declared_all(exts)[k].2),
{
    lemma_add_missing_adopts(entries, declared_all(exts), eid, sid, k);
}

proof fn lemma_add_missing_adopts(
    e: Seq<(Seq<char>, Seq<char>, Seq<char>)>,
    reqs: Seq<(Seq<char>, Seq<char>, Seq<char>)>,
    eid: Seq<char>,
    sid: Seq<char>,
    k: int,
)
    requires
        !has_setting(e, eid, sid),
        0 <= k < reqs.len(),
        reqs[k].0 == eid && reqs[k].1 == sid,
        forall|j: int| 0 <= j < k ==> !(#[trigger] reqs[j].0 == eid && reqs[j].1 == sid),
    ensures
        lookup(add_missing(e, reqs), eid, sid) == Some(reqs[k].2),
    decreases reqs.len(),
{
    let d = reqs.drop_last();
    let prev = add_missing(e, d);
    lemma_lookup_push(prev, reqs.last(), eid, sid);
    if k < reqs.len() - 1 {
        assert forall|j: int| 0 <= j < k implies !(#[trigger] d[j].0 == eid && d[j].1 == sid) by {
            assert(d[j] == reqs[j]);
        }
        lemma_add_missing_adopts(e, d, eid, sid, k);
        lemma_lookup_some_has(prev, eid, sid);
    } else {
        lemma_has_add_missing(e, d, eid, sid);
        if has_setting(prev, eid, sid) {
            let j = choose|j: int| 0 <= j < d.len() && #[trigger] d[j].0 == eid && d[j].1 == sid;
            assert(reqs[j] == d[j]);
        }
    }
}

/// Reconciling a second time with the same manifests changes nothing.
pub proof fn lemma_reconcile_idempotent(
    entries: Seq<(Seq<char>, Seq<char>, Seq<char>)>,
    exts: Seq<Extension>,
)
    ensures
        reconciled(reconciled(entries, exts), exts) == reconciled(entries, exts),
{
    let reqs = declared_all(exts);
    let r = reconciled(entries, exts);
    assert forall|k: int| 0 <= k < reqs.len() implies has_setting(r, #[trigger] reqs[k].0, reqs[k].1) by {
        lemma_has_add_missing(entries, reqs, reqs[k].0, reqs[k].1);
    }
    lemma_add_missing_noop(r, reqs);
}

/// The index of the first stored entry for setting `sid` of extension `eid`.
fn position_of(entries: &Vec<ExtensionSetting>, eid: &String, sid: &String) -> (r: Option<usize>)
    ensures
        match r {
            None => !has_setting(entries_view(entries@), eid@, sid@),
            Some(i) => {
                &&& i < entries@.len()
                &&& entries@[i as int].extension_id@ == eid@
                &&& entries@[i as int].setting_id@ == sid@
                &&& forall|j: int|
                    0 <= j < i ==> !(#[trigger] entries_view(entries@)[j].0 == eid@
                        && entries_view(entries@)[j].1 == sid@)
            },
        },
{
    let mut i: usize = 0;
    while i < entries.len()
        invariant
            i <= entries@.len(),
            forall|j: int|
                0 <= j < i ==> !(#[trigger] entries_view(entries@)[j].0 == eid@
                    && entries_view(entries@)[j].1 == sid@),
        decreases entries@.len() - i,
    {
        if entries[i].extension_id == *eid && entries[i].setting_id == *sid {
            return Some(i);
        }
        i = i + 1;
    }
    None
}

fn copy_setting(e: &ExtensionSetting) -> (r: ExtensionSetting)
    ensures
        entry_view(r) == entry_view(*e),
{
    ExtensionSetting {
        extension_id: e.extension_id.clone(),
        setting_id: e.setting_id.clone(),
        setting_value: e.setting_value.clone(),
    }
}

/// The entries a manifest asks for, keyword first.
pub fn declared_settings(ext: &Extension) -> (r: Vec<ExtensionSetting>)
    ensures
        entries_view(r@) == declared(*ext),
{
    let mut r: Vec<ExtensionSetting> = Vec::new();
    r.push(
        ExtensionSetting {
            extension_id: ext.id.clone(),
            setting_id: String::from_str("keyword"),
            setting_value: ext.keyword.clone(),
        },
    );
    let ghost head = seq![(ext.id@, "keyword"@, ext.keyword@)];
    assert(entries_view(r@) =~= head);
    match &ext.settings {
        Some(decls) => {
            let ghost tail = decls@.map_values(
                |d: DeclaredSetting| (ext.id@, d.id@, d.default_value@),
            );
            for k in 0..decls.len()
                invariant
                    entries_view(r@) == head + tail.take(k as int),
                    tail == decls@.map_values(
                        |d: DeclaredSetting| (ext.id@, d.id@, d.default_value@),
                    ),
                    head == seq![(ext.id@, "keyword"@, ext.keyword@)],
            {
                let d = &decls[k];
                let ghost before = r@;
                r.push(
                    ExtensionSetting {
                        extension_id: ext.id.clone(),
                        setting_id: d.id.clone(),
                        setting_value: d.default_value.clone(),
                    },
                );
                assert(tail[k as int] == (ext.id@, d.id@, d.default_value@));
                assert(entries_view(r@) =~= entries_view(before).push(tail[k as int]));
                assert(entries_view(r@) =~= head + tail.take(k + 1));
            }
            assert(tail.take(decls@.len() as int) =~= tail);
        },
        None => {
            assert(head + Seq::empty() =~= head);
        },
    }
    r
}

/// Appends each requested entry whose extension and setting ids are not yet
/// stored.
pub fn add_missing_settings(entries: &mut Vec<ExtensionSetting>, reqs: &Vec<ExtensionSetting>)
    ensures
        entries_view(final(entries)@) == add_missing(entries_view(old(entries)@), entries_view(reqs@)),
{
    let ghost e0 = entries_view(entries@);
    let ghost rv = entries_view(reqs@);
    for k in 0..reqs.len()
        invariant
            entries_view(entries@) == add_missing(e0, rv.take(k as int)),
            rv == entries_view(reqs@),
    {
        assert(rv.take(k + 1).drop_last() =~= rv.take(k as int));
        assert(rv.take(k + 1).last() == entry_view(reqs@[k as int]));
        let req = &reqs[k];
        match position_of(entries, &req.extension_id, &req.setting_id) {
            Some(i) => {
                assert(entries_view(entries@)[i as int].0 == req.extension_id@);
            },
            None => {
                let c = copy_setting(req);
                let ghost before = entries@;
                entries.push(c);
                assert(entries_view(entries@) =~= entries_view(before).push(entry_view(c)));
            },
        }
    }
    assert(rv.take(reqs@.len() as int) =~= rv);
}

/// Merges what the manifests declare into the stored entries: a missing
/// keyword or setting is appended at its declared value, and every stored
/// entry is kept as it is.
pub fn merge_extension_settings(entries: &mut Vec<ExtensionSetting>, extensions: &Vec<Extension>)
    ensures
        entries_view(final(entries)@) == reconciled(entries_view(old(entries)@), extensions@),
{
    let ghost e0 = entries_view(entries@);
    for i in 0..extensions.len()
        invariant
            entries_view(entries@) == reconciled(e0, extensions@.take(i as int)),
    {
        let d = declared_settings(&extensions[i]);
        add_missing_settings(entries, &d);
        proof {
            let t = extensions@.take(i + 1);
            assert(t.drop_last() =~= extensions@.take(i as int));
            assert(t.last() == extensions@[i as int]);
            lemma_add_missing_split(e0, declared_all(extensions@.take(i as int)), declared(extensions@[i as int]));
        }
    }
    assert(extensions@.take(extensions@.len() as int) =~= extensions@);
}

/// Reconciles the settings with the manifests found on disk; every field
/// but the extension entries is left as it was.
pub fn reconcile_settings(settings: &mut Settings, extensions: &Vec<Extension>)
    ensures
        entries_view(final(settings).extensions@) == reconciled(
            entries_view(old(settings).extensions@),
            extensions@,
        ),
        *final(settings) == (Settings { extensions: final(settings).extensions, ..*old(settings) }),
{
    merge_extension_settings(&mut settings.extensions, extensions);
}

/// The manifests that parsed, in the order they were found.
pub open spec fn parsed_manifests(found: Seq<Option<Extension>>) -> Seq<Extension>
    decreases found.len(),
{
    if found.len() == 0 {
        Seq::empty()
    } else {
        match found[0] {
            Some(e) => seq![e] + parsed_manifests(found.drop_first()),
            None => parsed_manifests(found.drop_first()),
        }
    }
}

/// Keeps the manifests that parsed and drops the ones that did not, so that
/// one malformed manifest hides only its own extension.
pub fn collect_manifests(found: Vec<Option<Extension>>) -> (r: Vec<Extension>)
    ensures
        r@ == parsed_manifests(found@),
{
    let mut rest = found;
    let mut r: Vec<Extension> = Vec::new();
    while rest.len() > 0
        invariant
            r@ + parsed_manifests(rest@) == parsed_manifests(found@),
        decreases rest@.len(),
    {
        let ghost before = rest@;
        let x = rest.remove(0);
        assert(rest@ =~= before.drop_first());
        match x {
            Some(e) => {
                let ghost r0 = r@;
                r.push(e);
                assert(r@ + parsed_manifests(rest@) =~= r0 + (seq![e] + parsed_manifests(rest@)));
            },
            None => {},
        }
    }
    assert(r@ + parsed_manifests(rest@) =~= r@);
    r
}

/// The stored value of setting `setting_id` of extension `extension_id`.
pub fn get_extension_setting(settings: &Settings, extension_id: &String, setting_id: &String) -> (r: Option<String>)
    ensures
        match r {
            Some(v) => lookup(entries_view(settings.extensions@), extension_id@, setting_id@) == Some(v@),
            None => lookup(entries_view(settings.extensions@), extension_id@, setting_id@) is None,
        },
{
    match position_of(&settings.extensions, extension_id, setting_id) {
        Some(i) => {
            proof {
                lemma_lookup_first(entries_view(settings.extensions@), extension_id@, setting_id@, i as int);
            }
            Some(settings.extensions[i].setting_value.clone())
        },
        None => {
            proof {
                lemma_lookup_none(entries_view(settings.extensions@), extension_id@, setting_id@);
            }
            None
        },
    }
}

/// The index of the first manifest with id `extension_id`.
pub fn find_extension(extensions: &Vec<Extension>, extension_id: &String) -> (r: Option<usize>)
    ensures
        match r {
            Some(i) => i < extensions@.len() && extensions@[i as int].id@ == extension_id@
                && forall|j: int| 0 <= j < i ==> (#[trigger] extensions@[j]).id@ != extension_id@,
            None => forall|j: int|
                0 <= j < extensions@.len() ==> (#[trigger] extensions@[j]).id@ != extension_id@,
        },
{
    let mut i: usize = 0;
    while i < extensions.len()
        invariant
            i <= extensions@.len(),
            forall|j: int| 0 <= j < i ==> (#[trigger] extensions@[j]).id@ != extension_id@,
        decreases extensions@.len() - i,
    {
        if extensions[i].id == *extension_id {
            return Some(i);
        }
        i = i + 1;
    }
    None
}

} // verus!
