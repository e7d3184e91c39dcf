//! The panel where the user writes a message and attaches files.

use vstd::prelude::*;

use crate::component::{clone_strings, strings_model};
use crate::path::{file_name, has_same_unix_path, is_same_unix_path, same_unix_path, unix_file_name};
use crate::service::http_request::{form_field, form_model};
use crate::text::min_int;

verus! {

/// The files picked for the next message, the conversation it goes to,
/// and the error shown beside the files.
pub struct SendMessageEntity {
    pub pick_send_files: Vec<String>,
    pub group_id: String,
    pub err_msg: String,
}

/// The mathematical value of a [`SendMessageEntity`].
pub struct SendMessageEntityModel {
    pub pick_send_files: Seq<Seq<char>>,
    pub group_id: Seq<char>,
    pub err_msg: Seq<char>,
}

impl View for SendMessageEntity {
    type V = SendMessageEntityModel;

    open spec fn view(&self) -> SendMessageEntityModel {
        SendMessageEntityModel {
            pick_send_files: strings_model(self.pick_send_files@),
            group_id: self.group_id@,
            err_msg: self.err_msg@,
        }
    }
}

/// The most files one pick adds once the limit is hit.
pub const MAX_PICKED_FILES: usize = 5;

/// The message shown when a pick hits the limit.
pub open spec fn too_many_files_msg() -> Seq<char> {
    "最多选择5个文件"@
}

/// The picked paths that name none of the paths in `existing`, in the
/// order picked; paths are compared by their components, as `PathBuf`s
/// are, under Unix rules.
pub open spec fn fresh_paths(picked: Seq<Seq<char>>, existing: Seq<Seq<char>>) -> Seq<Seq<char>>
    decreases picked.len(),
{
    if picked.len() == 0 {
        picked
    } else {
        let rest = fresh_paths(picked.drop_last(), existing);
        if has_same_unix_path(existing, picked.last()) {
            rest
        } else {
            rest.push(picked.last())
        }
    }
}

proof fn lemma_fresh_paths_are_new(picked: Seq<Seq<char>>, existing: Seq<Seq<char>>)
    ensures
        forall|k: int| 0 <= k < fresh_paths(picked, existing).len() ==> !has_same_unix_path(
            existing,
            #[trigger] fresh_paths(picked, existing)[k],
        ) && picked.contains(fresh_paths(picked, existing)[k]),
        fresh_paths(picked, existing).len() <= picked.len(),
    decreases picked.len(),
{
    if picked.len() > 0 {
        lemma_fresh_paths_are_new(picked.drop_last(), existing);
        let rest = fresh_paths(picked.drop_last(), existing);
        assert forall|k: int| 0 <= k < fresh_paths(picked, existing).len() implies !has_same_unix_path(
            existing,
            #[trigger] fresh_paths(picked, existing)[k],
        ) && picked.contains(fresh_paths(picked, existing)[k]) by {
            if k < rest.len() {
                let j = choose|j: int| 0 <= j < picked.drop_last().len() && picked.drop_last()[j] == rest[k];
                assert(picked[j] == rest[k]);
            } else {
                assert(picked[picked.len() - 1] == picked.last());
            }
        }
    }
}

/// Whether a pick hits the limit: it brings more than five new files, or
/// more than five files were already picked.
pub open spec fn pick_over_limit(fresh_len: nat, existing_len: nat) -> bool {
    fresh_len > MAX_PICKED_FILES || existing_len > MAX_PICKED_FILES
}

/// The panel after the user picked `picked`: the new paths are appended,
/// at most five of them when the pick hits the limit, which also sets the
/// error message.
pub open spec fn spec_pick_files(m: SendMessageEntityModel, picked: Seq<Seq<char>>) -> SendMessageEntityModel {
    let fresh = fresh_paths(picked, m.pick_send_files);
    if pick_over_limit(fresh.len(), m.pick_send_files.len()) {
        SendMessageEntityModel {
            pick_send_files: m.pick_send_files + fresh.take(min_int(MAX_PICKED_FILES as int, fresh.len() as int)),
            err_msg: too_many_files_msg(),
            ..m
        }
    } else {
        SendMessageEntityModel { pick_send_files: m.pick_send_files + fresh, ..m }
    }
}

/// A pick only appends, only paths that were picked and name none of the
/// files picked before, and at most five of them when it hits the limit.
pub proof fn lemma_pick_adds_only_new_files(m: SendMessageEntityModel, picked: Seq<Seq<char>>)
    ensures
        ({
            let r = spec_pick_files(m, picked);
            let added = r.pick_send_files.len() - m.pick_send_files.len();
            &&& r.pick_send_files.take(m.pick_send_files.len() as int) == m.pick_send_files
            &&& forall|k: int| m.pick_send_files.len() <= k < r.pick_send_files.len() ==> !has_same_unix_path(
                m.pick_send_files,
                #[trigger] r.pick_send_files[k],
            ) && picked.contains(r.pick_send_files[k])
            &&& 0 <= added <= picked.len()
            &&& pick_over_limit(fresh_paths(picked, m.pick_send_files).len(), m.pick_send_files.len()) ==> added
                <= MAX_PICKED_FILES
        }),
{
    let fresh = fresh_paths(picked, m.pick_send_files);
    lemma_fresh_paths_are_new(picked, m.pick_send_files);
    let r = spec_pick_files(m, picked);
    let n = m.pick_send_files.len() as int;
    assert(r.pick_send_files.take(n) =~= m.pick_send_files);
    assert forall|k: int| n <= k < r.pick_send_files.len() implies !has_same_unix_path(
        m.pick_send_files,
        #[trigger] r.pick_send_files[k],
    ) && picked.contains(r.pick_send_files[k]) by {
        assert(r.pick_send_files[k] == fresh[k - n]);
    }
}

/// The paths a pick may add are exactly the picked paths, in the order
/// picked, that are not the same path as a file picked before: a path is
/// skipped only for being an already picked file, whatever its name.
pub proof fn lemma_fresh_paths_are_the_unpicked(picked: Seq<Seq<char>>, existing: Seq<Seq<char>>)
    ensures
        fresh_paths(picked, existing) == picked.filter(|p: Seq<char>| !has_same_unix_path(existing, p)),
    decreases picked.len(),
{
    reveal(Seq::filter);
    if picked.len() > 0 {
        lemma_fresh_paths_are_the_unpicked(picked.drop_last(), existing);
    }
}

/// What a pick adds: every picked path that is not an already picked file,
/// in the order picked, when there are at most five of them and at most
/// five files were picked before; otherwise the first five of them, and the
/// error message says so. So within the limit no new path is ever skipped.
pub proof fn lemma_pick_adds_every_new_path(m: SendMessageEntityModel, picked: Seq<Seq<char>>)
    ensures
        ({
            let new_paths = picked.filter(|p: Seq<char>| !has_same_unix_path(m.pick_send_files, p));
            let r = spec_pick_files(m, picked);
            let within = new_paths.len() <= 5 && m.pick_send_files.len() <= 5;
            &&& within ==> r.pick_send_files == m.pick_send_files + new_paths && r.err_msg == m.err_msg
            &&& !within ==> r.pick_send_files == m.pick_send_files + new_paths.take(
                if new_paths.len() < 5 { new_paths.len() as int } else { 5 },
            ) && r.err_msg == "最多选择5个文件"@
            &&& within ==> forall|j: int|
                0 <= j < picked.len() && !has_same_unix_path(m.pick_send_files, picked[j]) ==> #[trigger] r.pick_send_files.contains(
                    picked[j],
                )
            &&& r.group_id == m.group_id
        }),
{
    broadcast use vstd::seq_lib::group_filter_ensures;

    let pred = |p: Seq<char>| !has_same_unix_path(m.pick_send_files, p);
    lemma_fresh_paths_are_the_unpicked(picked, m.pick_send_files);
    let new_paths = picked.filter(pred);
    let r = spec_pick_files(m, picked);
    let n = m.pick_send_files.len() as int;
    if new_paths.len() <= 5 && m.pick_send_files.len() <= 5 {
        assert forall|j: int|
            0 <= j < picked.len() && !has_same_unix_path(m.pick_send_files, picked[j]) implies #[trigger] r.pick_send_files.contains(
            picked[j],
        ) by {
            assert(pred(picked[j]));
            assert(new_paths.contains(picked[j]));
            let q = choose|q: int| 0 <= q < new_paths.len() && new_paths[q] == picked[j];
            assert(r.pick_send_files[n + q] == picked[j]);
        }
    }
}

/// The fields of the form that sends a message.
pub open spec fn spec_message_form(user_id: Seq<char>, group_id: Seq<char>, message: Seq<char>) -> Seq<(Seq<char>, Seq<char>)> {
    seq![("send_user_id"@, user_id), ("send_group_id"@, group_id), ("message"@, message)]
}

/// A message ready to be posted: the text fields of its form and the paths
/// of the files to attach, in order.
pub struct OutgoingMessage {
    pub fields: Vec<(String, String)>,
    pub files: Vec<String>,
}

fn contains_path(v: &Vec<String>, p: &String) -> (b: bool)
    ensures
        b == has_same_unix_path(strings_model(v@), p@),
{
    let mut i: usize = 0;
    while i < v.len()
        invariant
            i <= v@.len(),
            forall|j: int| 0 <= j < i ==> !same_unix_path(v@[j]@, p@),
        decreases v@.len() - i,
    {
        if is_same_unix_path(v[i].as_str(), p.as_str()) {
            assert(same_unix_path(strings_model(v@)[i as int], p@));
            return true;
        }
        i = i + 1;
    }
    assert(!has_same_unix_path(strings_model(v@), p@)) by {
        if has_same_unix_path(strings_model(v@), p@) {
            let k = choose|k: int| 0 <= k < strings_model(v@).len() && same_unix_path(#[trigger] strings_model(v@)[k], p@);
            assert(v@[k]@ == strings_model(v@)[k]);
        }
    }
    false
}

/// The name under which an attached file is uploaded: its file name, or
/// `unknown_file` when the path names none.
pub open spec fn spec_upload_file_name(path: Seq<char>) -> Seq<char> {
    match unix_file_name(path) {
        Some(n) => n,
        None => "unknown_file"@,
    }
}

/// The name under which the file at `path` is uploaded.
pub fn upload_file_name(path: &str) -> (n: String)
    ensures
        n@ == spec_upload_file_name(path@),
{
    match file_name(path) {
        Some(n) => n,
        None => "unknown_file".to_owned(),
    }
}

impl SendMessageEntity {
    /// The value of an empty panel.
    pub open spec fn new_model() -> SendMessageEntityModel {
        SendMessageEntityModel { pick_send_files: Seq::empty(), group_id: Seq::empty(), err_msg: Seq::empty() }
    }

    /// An empty panel.
    pub fn new() -> (s: Self)
        ensures
            s@ == Self::new_model(),
    {
        let s = SendMessageEntity { pick_send_files: Vec::new(), group_id: String::new(), err_msg: String::new() };
        assert(s@.pick_send_files =~= Seq::<Seq<char>>::empty());
        s
    }

    /// Adds the files the user picked: those naming a file already picked
    /// (compared by path components under Unix rules) are skipped;
    /// when the pick brings more than five new files, or more than five
    /// were already picked, only the first five new ones are kept and the
    /// error message says so.
    pub fn pick_files(&mut self, picked: Vec<String>)
        ensures
            final(self)@ == spec_pick_files(old(self)@, strings_model(picked@)),
    {
        let ghost existing = strings_model(self.pick_send_files@);
        let mut fresh: Vec<String> = Vec::new();
        let mut i: usize = 0;
        while i < picked.len()
            invariant
                i <= picked@.len(),
                existing == strings_model(self.pick_send_files@),
                self@ == old(self)@,
                strings_model(fresh@) == fresh_paths(strings_model(picked@).take(i as int), existing),
            decreases picked@.len() - i,
        {
            proof {
                assert(strings_model(picked@).take(i + 1).drop_last() =~= strings_model(picked@).take(i as int));
            }
            if !contains_path(&self.pick_send_files, &picked[i]) {
                let p = picked[i].clone();
                fresh.push(p);
                assert(strings_model(fresh@) =~= fresh_paths(strings_model(picked@).take(i as int), existing).push(p@));
            }
            i = i + 1;
        }
        assert(strings_model(picked@).take(picked@.len() as int) =~= strings_model(picked@));
        if fresh.len() > MAX_PICKED_FILES || self.pick_send_files.len() > MAX_PICKED_FILES {
            if fresh.len() > MAX_PICKED_FILES {
                fresh.truncate(MAX_PICKED_FILES);
            }
            self.err_msg = "最多选择5个文件".to_owned();
            assert(strings_model(fresh@) =~= fresh_paths(strings_model(picked@), existing).take(
                min_int(MAX_PICKED_FILES as int, fresh_paths(strings_model(picked@), existing).len() as int),
            ));
        }
        let ghost before = self.pick_send_files@;
        let ghost added = fresh@;
        self.pick_send_files.append(&mut fresh);
        assert(strings_model(self.pick_send_files@) =~= strings_model(before) + strings_model(added));
    }

    /// Drops the picked file at `index` and clears the error message.
    pub fn remove_picked_file(&mut self, index: usize)
        requires
            index < old(self)@.pick_send_files.len(),
        ensures
            final(self)@ == (SendMessageEntityModel {
                pick_send_files: old(self)@.pick_send_files.remove(index as int),
                err_msg: Seq::<char>::empty(),
                ..old(self)@
            }),
    {
        if !self.err_msg.as_str().is_empty() {
            self.err_msg = String::new();
        }
        proof {
            if self.err_msg@.len() == 0 {
                assert(self.err_msg@ =~= Seq::<char>::empty());
            }
        }
        let ghost before = self.pick_send_files@;
        self.pick_send_files.remove(index);
        assert(strings_model(self.pick_send_files@) =~= strings_model(before).remove(index as int));
    }

    /// Sends `message` on behalf of `user_id` to the conversation of this
    /// panel, with the picked files; the picked files are cleared.
    pub fn send_message(&mut self, user_id: &str, message: &str) -> (out: OutgoingMessage)
        ensures
            form_model(out.fields@) == spec_message_form(user_id@, old(self)@.group_id, message@),
            strings_model(out.files@) == old(self)@.pick_send_files,
            final(self)@ == (SendMessageEntityModel { pick_send_files: Seq::<Seq<char>>::empty(), ..old(self)@ }),
    {
        let mut fields = Vec::new();
        fields.push(form_field("send_user_id", user_id));
        fields.push(form_field("send_group_id", self.group_id.as_str()));
        fields.push(form_field("message", message));
        assert(form_model(fields@) =~= spec_message_form(user_id@, self@.group_id, message@));
        let files = clone_strings(&self.pick_send_files);
        self.pick_send_files.clear();
        assert(strings_model(self.pick_send_files@) =~= Seq::<Seq<char>>::empty());
        OutgoingMessage { fields, files }
    }
}

} // verus!
