use vstd::prelude::*;

verus! {

/// The messages of one field: the field's name and its messages in order.
pub type ErrorEntry = (Seq<char>, Seq<Seq<char>>);

/// No two entries name the same field.
pub open spec fn keys_unique(entries: Seq<ErrorEntry>) -> bool {
    forall|i: int, j: int| 0 <= i < j < entries.len() ==> entries[i].0 != entries[j].0
}

/// Some entry names the field.
pub open spec fn has_key(entries: Seq<ErrorEntry>, key: Seq<char>) -> bool {
    exists|i: int| 0 <= i < entries.len() && entries[i].0 == key
}

/// The position of the entry that names the field (meaningful where it exists).
pub open spec fn key_index(entries: Seq<ErrorEntry>, key: Seq<char>) -> int {
    choose|i: int| 0 <= i < entries.len() && entries[i].0 == key
}

/// The messages recorded for a field; empty where there is no entry for it.
pub open spec fn messages_of(entries: Seq<ErrorEntry>, key: Seq<char>) -> Seq<Seq<char>> {
    if has_key(entries, key) {
        entries[key_index(entries, key)].1
    } else {
        Seq::empty()
    }
}

/// The entries after appending `messages` to the field `key`: an existing entry
/// keeps its place and grows, a new field is added at the end.
pub open spec fn with_messages_appended(
    entries: Seq<ErrorEntry>,
    key: Seq<char>,
    messages: Seq<Seq<char>>,
) -> Seq<ErrorEntry> {
    if has_key(entries, key) {
        let i = key_index(entries, key);
        entries.update(i, (key, entries[i].1 + messages))
    } else {
        entries.push((key, messages))
    }
}

/// The entries after replacing the messages of the field `key` with `messages`.
pub open spec fn with_messages_replaced(
    entries: Seq<ErrorEntry>,
    key: Seq<char>,
    messages: Seq<Seq<char>>,
) -> Seq<ErrorEntry> {
    if has_key(entries, key) {
        entries.update(key_index(entries, key), (key, messages))
    } else {
        entries.push((key, messages))
    }
}

/// The entries after appending, field by field and in order, every entry of `other`.
pub open spec fn with_entries_merged(entries: Seq<ErrorEntry>, other: Seq<ErrorEntry>) -> Seq<
    ErrorEntry,
>
    decreases other.len(),
{
    if other.len() == 0 {
        entries
    } else {
        let last = other.last();
        with_messages_appended(with_entries_merged(entries, other.drop_last()), last.0, last.1)
    }
}

/// One line per message, `field: message`, field by field in order.
pub open spec fn error_lines(entries: Seq<ErrorEntry>) -> Seq<Seq<char>>
    decreases entries.len(),
{
    if entries.len() == 0 {
        Seq::empty()
    } else {
        let last = entries.last();
        error_lines(entries.drop_last()) + last.1.map_values(
            |m: Seq<char>| last.0 + ": "@ + m,
        )
    }
}

/// The field under which an error without a field is recorded.
pub open spec fn field_key(field: Option<&str>) -> Seq<char> {
    match field {
        Some(f) => f@,
        None => "_global"@,
    }
}

proof fn lemma_key_index(entries: Seq<ErrorEntry>, i: int)
    requires
        keys_unique(entries),
        0 <= i < entries.len(),
    ensures
        has_key(entries, entries[i].0),
        key_index(entries, entries[i].0) == i,
{
    assert(has_key(entries, entries[i].0));
}

proof fn lemma_appended_unique(entries: Seq<ErrorEntry>, key: Seq<char>, messages: Seq<Seq<char>>)
    requires
        keys_unique(entries),
    ensures
        keys_unique(with_messages_appended(entries, key, messages)),
        keys_unique(with_messages_replaced(entries, key, messages)),
{
    if has_key(entries, key) {
        let i = key_index(entries, key);
        assert(entries[i].0 == key);
    }
}

/// Clones a list of strings, keeping each text.
pub fn clone_strings(source: &Vec<String>) -> (copy: Vec<String>)
    ensures
        copy.deep_view() == source.deep_view(),
{
    let mut copy: Vec<String> = Vec::new();
    for i in 0..source.len()
        invariant
            copy.len() == i,
            forall|j: int| 0 <= j < i ==> #[trigger] copy@[j]@ == source@[j]@,
    {
        copy.push(source[i].clone());
    }
    assert(copy.deep_view() =~= source.deep_view());
    copy
}

/// The messages of a notification, field by field.
#[derive(Debug)]
pub struct FieldErrors {
    entries: Vec<(String, Vec<String>)>,
}

/// The abstract entries of a list of concrete ones.
pub open spec fn entries_view(entries: Seq<(String, Vec<String>)>) -> Seq<ErrorEntry> {
    entries.map_values(|e: (String, Vec<String>)| (e.0@, e.1.deep_view()))
}

impl View for FieldErrors {
    type V = Seq<ErrorEntry>;

    closed spec fn view(&self) -> Seq<ErrorEntry> {
        entries_view(self.entries@)
    }
}

impl FieldErrors {
    #[verifier::type_invariant]
    closed spec fn wf(&self) -> bool {
        keys_unique(self@)
    }

    /// A collection without fields.
    pub fn new() -> (errors: Self)
        ensures
            errors@ == Seq::<ErrorEntry>::empty(),
    {
        let errors = FieldErrors { entries: Vec::new() };
        assert(errors@ =~= Seq::<ErrorEntry>::empty());
        errors
    }

    /// The number of fields with an entry.
    pub fn len(&self) -> (n: usize)
        ensures
            n == self@.len(),
    {
        self.entries.len()
    }

    /// Whether no field has an entry.
    pub fn is_empty(&self) -> (empty: bool)
        ensures
            empty == (self@.len() == 0),
    {
        self.entries.len() == 0
    }

    /// The position of the entry for `key`, if there is one.
    fn position(&self, key: &String) -> (pos: Option<usize>)
        ensures
            match pos {
                Some(i) => i < self@.len() && self@[i as int].0 == key@ && has_key(self@, key@)
                    && key_index(self@, key@) == i,
                None => !has_key(self@, key@),
            },
    {
        proof {
            use_type_invariant(self);
        }
        let mut i: usize = 0;
        while i < self.entries.len()
            invariant
                i <= self.entries.len(),
                keys_unique(self@),
                forall|j: int| 0 <= j < i ==> self@[j].0 != key@,
            decreases self.entries.len() - i,
        {
            if self.entries[i].0 == *key {
                proof {
                    lemma_key_index(self@, i as int);
                }
                return Some(i);
            }
            i = i + 1;
        }
        None
    }

    /// Whether a field has an entry.
    pub fn contains_key(&self, field: &str) -> (found: bool)
        ensures
            found == has_key(self@, field@),
    {
        let key = String::from_str(field);
        self.position(&key).is_some()
    }

    /// The messages recorded for a field, if it has an entry.
    pub fn get(&self, field: &str) -> (messages: Option<&Vec<String>>)
        ensures
            match messages {
                Some(m) => has_key(self@, field@) && m.deep_view() == messages_of(self@, field@),
                None => !has_key(self@, field@),
            },
    {
        let key = String::from_str(field);
        match self.position(&key) {
            Some(i) => Some(&self.entries[i].1),
            None => None,
        }
    }

    /// Appends messages to a field, creating its entry if needed.
    fn append_messages(&mut self, key: String, messages: Vec<String>)
        ensures
            final(self)@ == with_messages_appended(old(self)@, key@, messages.deep_view()),
    {
        proof {
            use_type_invariant(&*self);
            lemma_appended_unique(self@, key@, messages.deep_view());
        }
        let position = self.position(&key);
        let mut entries: Vec<(String, Vec<String>)> = Vec::new();
        std::mem::swap(&mut entries, &mut self.entries);
        let ghost old_view = entries_view(entries@);
        assert(old_view == old(self)@);
        match position {
            Some(i) => {
                let (k, mut current) = entries.remove(i);
                let ghost before = current.deep_view();
                let ghost n0 = current@.len();
                for j in 0..messages.len()
                    invariant
                        before.len() == n0,
                        current@.len() == n0 + j,
                        forall|k: int| 0 <= k < n0 ==> #[trigger] current@[k]@ == before[k],
                        forall|k: int|
                            0 <= k < j ==> #[trigger] current@[n0 + k]@ == messages@[k]@,
                {
                    current.push(messages[j].clone());
                }
                assert forall|k: int| 0 <= k < current@.len() implies current.deep_view()[k]
                    == (before + messages.deep_view())[k] by {
                    if k >= n0 {
                        assert(current@[n0 + (k - n0)]@ == messages@[k - n0]@);
                    }
                }
                assert(current.deep_view() =~= before + messages.deep_view());
                entries.insert(i, (k, current));
                assert(entries_view(entries@) =~= with_messages_appended(
                    old_view,
                    key@,
                    messages.deep_view(),
                ));
            },
            None => {
                entries.push((key, messages));
                assert(entries_view(entries@) =~= with_messages_appended(
                    old_view,
                    key@,
                    messages.deep_view(),
                ));
            },
        }
        self.entries = entries;
    }

    /// Replaces the messages of a field, creating its entry if needed.
    fn replace_messages(&mut self, key: String, messages: Vec<String>)
        ensures
            final(self)@ == with_messages_replaced(old(self)@, key@, messages.deep_view()),
    {
        proof {
            use_type_invariant(&*self);
            lemma_appended_unique(self@, key@, messages.deep_view());
        }
        let position = self.position(&key);
        let mut entries: Vec<(String, Vec<String>)> = Vec::new();
        std::mem::swap(&mut entries, &mut self.entries);
        let ghost old_view = entries_view(entries@);
        assert(old_view == old(self)@);
        let ghost new_messages = messages.deep_view();
        match position {
            Some(i) => {
                let _ = entries.remove(i);
                entries.insert(i, (key, messages));
            },
            None => {
                entries.push((key, messages));
            },
        }
        assert(entries_view(entries@) =~= with_messages_replaced(old_view, key@, new_messages));
        self.entries = entries;
    }
}


/// The validation errors gathered on an entity, by field.
#[derive(Debug)]
pub struct Notification {
    errors: FieldErrors,
}

impl View for Notification {
    type V = Seq<ErrorEntry>;

    closed spec fn view(&self) -> Seq<ErrorEntry> {
        self.errors@
    }
}

impl Notification {
    /// A notification without errors.
    pub fn new() -> (notification: Self)
        ensures
            notification@ == Seq::<ErrorEntry>::empty(),
    {
        Notification { errors: FieldErrors::new() }
    }

    /// Records an error under a field, or under `_global` without one; the
    /// message is appended to those already recorded for that field.
    pub fn add_error(&mut self, error: &str, field: Option<&str>)
        ensures
            final(self)@ == with_messages_appended(old(self)@, field_key(field), seq![error@]),
    {
        let key = match field {
            Some(f) => String::from_str(f),
            None => String::from_str("_global"),
        };
        let mut messages: Vec<String> = Vec::new();
        messages.push(String::from_str(error));
        assert(messages.deep_view() =~= seq![error@]);
        self.errors.append_messages(key, messages);
    }

    /// Replaces the errors of a field (or of `_global`) with the given list.
    pub fn set_error(&mut self, errors: Vec<String>, field: Option<&str>)
        ensures
            final(self)@ == with_messages_replaced(old(self)@, field_key(field), errors.deep_view()),
    {
        let key = match field {
            Some(f) => String::from_str(f),
            None => String::from_str("_global"),
        };
        self.errors.replace_messages(key, errors);
    }

    /// Whether any field has an entry.
    pub fn has_errors(&self) -> (has: bool)
        ensures
            has == (self@.len() > 0),
    {
        !self.errors.is_empty()
    }

    /// The errors by field.
    pub fn errors(&self) -> (errors: &FieldErrors)
        ensures
            errors@ == self@,
    {
        &self.errors
    }

    /// Appends every error of `other` to this notification, field by field.
    pub fn copy_errors(&mut self, other: &Self)
        ensures
            final(self)@ == with_entries_merged(old(self)@, other@),
    {
        let n = other.errors.entries.len();
        for i in 0..n
            invariant
                n == other@.len(),
                self@ == with_entries_merged(old(self)@, other@.take(i as int)),
        {
            let key = other.errors.entries[i].0.clone();
            let values = clone_strings(&other.errors.entries[i].1);
            assert(other@.take(i + 1).drop_last() =~= other@.take(i as int));
            self.errors.append_messages(key, values);
        }
        assert(other@.take(n as int) =~= other@);
    }

    /// One line per message, `field: message`, field by field.
    pub fn to_error_messages(&self) -> (lines: Vec<String>)
        ensures
            lines.deep_view() == error_lines(self@),
    {
        let entries = &self.errors.entries;
        let ghost all = self@;
        let mut lines: Vec<String> = Vec::new();
        for i in 0..entries.len()
            invariant
                all == entries_view(entries@),
                lines.deep_view() == error_lines(all.take(i as int)),
        {
            let field = &entries[i].0;
            let messages = &entries[i].1;
            let ghost done = lines.deep_view();
            for j in 0..messages.len()
                invariant
                    lines.deep_view() == done + messages.deep_view().take(j as int).map_values(
                        |m: Seq<char>| field@ + ": "@ + m,
                    ),
            {
                let mut line = field.clone();
                line.append(": ");
                line.append(messages[j].as_str());
                let ghost before = lines.deep_view();
                lines.push(line);
                assert(lines.deep_view() =~= before.push(line@));
                assert(messages.deep_view().take(j + 1) =~= messages.deep_view().take(
                    j as int,
                ).push(messages@[j as int]@));
                assert(done + messages.deep_view().take(j + 1).map_values(
                    |m: Seq<char>| field@ + ": "@ + m,
                ) =~= (done + messages.deep_view().take(j as int).map_values(
                    |m: Seq<char>| field@ + ": "@ + m,
                )).push(field@ + ": "@ + messages@[j as int]@));
            }
            assert(messages.deep_view().take(messages.len() as int) =~= messages.deep_view());
            assert(all.take(i + 1).drop_last() =~= all.take(i as int));
        }
        assert(all.take(entries.len() as int) =~= all);
        lines
    }
}

impl Clone for FieldErrors {
    fn clone(&self) -> (copy: Self)
        ensures
            copy@ == self@,
    {
        proof {
            use_type_invariant(self);
        }
        let mut entries: Vec<(String, Vec<String>)> = Vec::new();
        for i in 0..self.entries.len()
            invariant
                keys_unique(self@),
                entries_view(entries@) == self@.take(i as int),
        {
            let key = self.entries[i].0.clone();
            let values = clone_strings(&self.entries[i].1);
            let ghost before = entries_view(entries@);
            entries.push((key, values));
            assert(entries_view(entries@) =~= before.push(self@[i as int]));
            assert(self@.take(i + 1) =~= self@.take(i as int).push(self@[i as int]));
        }
        assert(self@.take(self.entries.len() as int) =~= self@);
        FieldErrors { entries }
    }
}

impl Clone for Notification {
    fn clone(&self) -> (copy: Self)
        ensures
            copy@ == self@,
    {
        Notification { errors: self.errors.clone() }
    }
}

impl Default for Notification {
    fn default() -> (notification: Self)
        ensures
            notification@ == Seq::<ErrorEntry>::empty(),
    {
        Notification::new()
    }
}

} // verus!
