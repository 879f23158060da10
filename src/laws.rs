//! The storage directory as a map from file path to contents, what carrying
//! out a plan does to it, and the service's laws over that model.
use vstd::prelude::*;
use crate::auth::is_authorized;
use crate::paste_id::{join, name_error, is_alphanumeric};
use crate::routes::{
    delete_plan, reply_for, retrieve_plan, text, upload_path_plan, upload_plan, Config, OutcomeView,
    PlanView, ReplyView, CONFLICT, DELETED, NOT_FOUND, UNAUTHORIZED,
};

verus! {

/// The storage directory when no operation fails: each file path maps to
/// the bytes held there.
pub type Store = Map<Seq<char>, Seq<u8>>;

/// The directory after carrying out `plan` on `store`, with the outcome.
pub open spec fn perform(store: Store, plan: PlanView) -> (Store, OutcomeView) {
    match plan {
        PlanView::Respond { .. } => (store, OutcomeView::Done),
        PlanView::Fetch { path } => if store.contains_key(path) {
            (store, OutcomeView::Contents(store[path]))
        } else {
            (store, OutcomeView::Missing)
        },
        PlanView::Store { path, body, .. } => (store.insert(path, body), OutcomeView::Done),
        PlanView::Create { path, body, .. } => if store.contains_key(path) {
            (store, OutcomeView::Exists)
        } else {
            (store.insert(path, body), OutcomeView::Done)
        },
        PlanView::Remove { path, .. } => if store.contains_key(path) {
            (store.remove(path), OutcomeView::Done)
        } else {
            (store, OutcomeView::Missing)
        },
    }
}

/// The response to `plan` carried out on `store`.
pub open spec fn answer(store: Store, plan: PlanView) -> ReplyView {
    reply_for(plan, perform(store, plan).1)
}

/// The directory after `plan` is carried out on `store`.
pub open spec fn after(store: Store, plan: PlanView) -> Store {
    perform(store, plan).0
}

/// Distinct identifiers are kept in distinct files under the same root.
pub proof fn lemma_paths_distinct(root: Seq<char>, a: Seq<char>, b: Seq<char>)
    requires
        join(root, a) == join(root, b),
    ensures
        a == b,
{
    let p = join(root, a);
    let k = p.len() - a.len();
    assert(a =~= p.subrange(k, p.len() as int));
    assert(b =~= p.subrange(k, p.len() as int));
}

/// After an anonymous upload under a generated identifier, the link points
/// at that identifier and GET of it returns exactly the uploaded bytes.
pub proof fn lemma_upload_round_trip(cfg: Config, id: Seq<char>, body: Seq<u8>, store: Store)
    requires
        cfg.wf(),
        id.len() == cfg.id_length,
        forall|i: int| 0 <= i < id.len() ==> is_alphanumeric(#[trigger] id[i]),
    ensures
        answer(store, upload_plan(cfg, id, body)) == text(200, join(cfg.host@, id)),
        answer(after(store, upload_plan(cfg, id, body)), retrieve_plan(cfg, id))
            == (ReplyView::Content { bytes: body }),
{
    assert(name_error(id) is None) by {
        if id.len() == 1 || id.len() == 2 {
            if crate::paste_id::is_dot_name(id) {
                assert(id[0] == '.');
            }
        }
    }
}

/// After a named upload of a fresh name, the link points at that name and
/// GET of it returns exactly the uploaded bytes.
pub proof fn lemma_named_upload_round_trip(
    cfg: Config,
    name: Seq<char>,
    token: Option<Seq<char>>,
    body: Seq<u8>,
    store: Store,
)
    requires
        is_authorized(token, cfg.secret@),
        name_error(name) is None,
        !store.contains_key(join(cfg.root@, name)),
    ensures
        answer(store, upload_path_plan(cfg, name, token, body)) == text(200, join(cfg.host@, name)),
        answer(after(store, upload_path_plan(cfg, name, token, body)), retrieve_plan(cfg, name))
            == (ReplyView::Content { bytes: body }),
{
}

/// A named upload of a name that already holds a paste is refused as a
/// conflict, and the stored paste stays as it was.
pub proof fn lemma_put_conflict(
    cfg: Config,
    name: Seq<char>,
    token: Option<Seq<char>>,
    body: Seq<u8>,
    store: Store,
)
    requires
        is_authorized(token, cfg.secret@),
        store.contains_key(join(cfg.root@, name)),
    ensures
        name_error(name) is None ==> answer(store, upload_path_plan(cfg, name, token, body))
            == text(409, CONFLICT@),
        after(store, upload_path_plan(cfg, name, token, body)) == store,
{
}

/// Deleting a name that holds no paste still confirms the deletion and
/// changes nothing.
pub proof fn lemma_delete_absent(cfg: Config, name: Seq<char>, token: Option<Seq<char>>, store: Store)
    requires
        is_authorized(token, cfg.secret@),
        name_error(name) is None,
        !store.contains_key(join(cfg.root@, name)),
    ensures
        answer(store, delete_plan(cfg, name, token)) == text(200, DELETED@ + name),
        after(store, delete_plan(cfg, name, token)) == store,
{
}

/// Deleting a stored paste confirms it, and GET of the name then finds nothing.
pub proof fn lemma_delete_then_retrieve(
    cfg: Config,
    name: Seq<char>,
    token: Option<Seq<char>>,
    store: Store,
)
    requires
        is_authorized(token, cfg.secret@),
        name_error(name) is None,
    ensures
        answer(store, delete_plan(cfg, name, token)) == text(200, DELETED@ + name),
        answer(after(store, delete_plan(cfg, name, token)), retrieve_plan(cfg, name))
            == text(404, NOT_FOUND@),
{
}

/// Without the right token, PUT and DELETE are refused and the directory is
/// left exactly as it was.
pub proof fn lemma_unauthorized_changes_nothing(
    cfg: Config,
    name: Seq<char>,
    token: Option<Seq<char>>,
    body: Seq<u8>,
    store: Store,
)
    requires
        !is_authorized(token, cfg.secret@),
    ensures
        upload_path_plan(cfg, name, token, body) == crate::routes::respond(401, UNAUTHORIZED@),
        delete_plan(cfg, name, token) == crate::routes::respond(401, UNAUTHORIZED@),
        after(store, upload_path_plan(cfg, name, token, body)) == store,
        after(store, delete_plan(cfg, name, token)) == store,
{
}

} // verus!
