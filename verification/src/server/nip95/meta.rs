//! The metadata of a file: an event of kind 1065, whose tags say what the file
//! is called, how large it is, and which events hold its parts.

use crate::event::{hex_bytes, id_views, is_hex, tag_views, Event, EventId, EventView};
use crate::text::{cat, contains, debug_list, debug_list_text, decimal, decimal_round_trip, decimal_text, decimal_value, is_decimal, occurs, occurs_at, parse_u64, parse_u64_error, same, texts, unsigned_part};
use vstd::prelude::*;

verus! {

/// The kind of the events that describe a file.
pub const FILE_KIND: u16 = 1065;

/// What the name of a tag says about it.
#[derive(Clone, Copy, Debug, PartialEq, Eq, Structural)]
pub enum TagName {
    Size,
    /// A name with no meaning of its own.
    Custom,
    Other,
}

/// What `nostr::TagKind::from` makes of the name of a tag.
pub uninterp spec fn tag_name_of(name: Seq<char>) -> TagName;

/// `nostr::TagKind::from`, at a string: the kind of the tag with this name, as
/// far as it is told apart here. Only `size` names a size, and neither
/// `fileName` nor `blockSize` has a kind of its own.
#[verifier::external_body]
fn tag_name(name: &str) -> (kind: TagName)
    ensures
        kind == tag_name_of(name@),
        kind == TagName::Size <==> name@ == "size"@,
        name@ == "fileName"@ || name@ == "blockSize"@ ==> kind == TagName::Custom,
{
    match nostr::TagKind::from(name) {
        nostr::TagKind::Size => TagName::Size,
        nostr::TagKind::Custom(_) => TagName::Custom,
        _ => TagName::Other,
    }
}

/// The event that `nostr::TagStandard::parse` finds a tag to refer to.
pub uninterp spec fn reference_of(tag: Seq<Seq<char>>) -> Option<Seq<u8>>;

/// The identifier of an event that a tag refers to, by its view.
pub open spec fn found_reference(found: Option<EventId>) -> Option<Seq<u8>> {
    match found {
        Some(id) => Some(id@),
        None => None,
    }
}

/// `nostr::TagStandard::parse`: the event that a tag refers to, where it is an
/// event reference. Those are named `e` and hold the identifier in hexadecimal
/// next; with nothing behind it, each such tag is one.
#[verifier::external_body]
fn event_reference(tag: &Vec<String>) -> (found: Option<EventId>)
    ensures
        found_reference(found) == reference_of(texts(tag@)),
        found is Some ==> {
            &&& tag@.len() >= 2 && tag@[0]@ == "e"@
            &&& is_hex(tag@[1]@) && tag@[1]@.len() == 64 && found->0@ == hex_bytes(tag@[1]@)
        },
        tag@.len() == 2 && tag@[0]@ == "e"@ && is_hex(tag@[1]@) && tag@[1]@.len() == 64
            ==> found is Some,
{
    match nostr::TagStandard::parse(tag) {
        Ok(nostr::TagStandard::Event { event_id, .. }) => Some(EventId { bytes: event_id.to_bytes() }),
        _ => None,
    }
}

/// What is known of which tags refer to an event: they are named `e` and hold
/// an identifier in hexadecimal next, and with nothing behind it each such tag
/// does.
pub open spec fn reference_rule(tag: Seq<Seq<char>>) -> bool {
    &&& reference_of(tag) is Some ==> {
        &&& tag.len() >= 2
        &&& tag[0] == "e"@
        &&& is_hex(tag[1])
        &&& tag[1].len() == 64
        &&& reference_of(tag)->0 == hex_bytes(tag[1])
    }
    &&& tag.len() == 2 && tag[0] == "e"@ && is_hex(tag[1]) && tag[1].len() == 64
        ==> reference_of(tag) is Some
}

/// That is known of each of these tags.
pub open spec fn reference_rules(tags: Seq<Seq<Seq<char>>>) -> bool {
    forall|i: int| 0 <= i < tags.len() ==> reference_rule(#[trigger] tags[i])
}

/// The events that tags refer to, in order.
pub open spec fn references(tags: Seq<Seq<Seq<char>>>) -> Seq<Seq<u8>> {
    tags.filter_map(reference_in())
}

/// The event that one tag refers to.
pub open spec fn reference_in() -> spec_fn(Seq<Seq<char>>) -> Option<Seq<u8>> {
    |tag: Seq<Seq<char>>| reference_of(tag)
}

/// The values of one tag, where it has the name.
pub open spec fn values_under(name: Seq<char>) -> spec_fn(Seq<Seq<char>>) -> Option<Seq<Seq<char>>> {
    |tag: Seq<Seq<char>>| if tag.len() > 0 && tag[0] == name { Some(tag.drop_first()) } else { None }
}

/// The values of each tag with the name, in order.
pub open spec fn named_values(tags: Seq<Seq<Seq<char>>>, name: Seq<char>) -> Seq<Seq<Seq<char>>> {
    tags.filter_map(values_under(name))
}

/// The file name in one tag.
pub open spec fn file_name_in() -> spec_fn(Seq<Seq<char>>) -> Option<Seq<char>> {
    |tag: Seq<Seq<char>>| if tag.len() == 2 && tag[0] == "fileName"@ { Some(tag[1]) } else { None }
}

/// The file names in tags: the `fileName` tags with exactly one value.
pub open spec fn file_names(tags: Seq<Seq<Seq<char>>>) -> Seq<Seq<char>> {
    tags.filter_map(file_name_in())
}

/// The size in one tag.
pub open spec fn size_in() -> spec_fn(Seq<Seq<char>>) -> Option<Seq<char>> {
    |tag: Seq<Seq<char>>| if tag.len() >= 2 && tag[0] == "size"@ { Some(tag[1]) } else { None }
}

/// The sizes in tags, as they are written: the first value of each `size` tag
/// that has one.
pub open spec fn sizes(tags: Seq<Seq<Seq<char>>>) -> Seq<Seq<char>> {
    tags.filter_map(size_in())
}

/// What reading a number of 64 bits gives.
pub open spec fn read_u64(text: Seq<char>) -> Result<u64, Seq<char>> {
    if is_decimal(text) && decimal_value(unsigned_part(text)) <= u64::MAX {
        Ok(decimal_value(unsigned_part(text)) as u64)
    } else {
        Err(parse_u64_error(text))
    }
}

/// The name of the file, if its tags give one.
pub open spec fn file_name_of(tags: Seq<Seq<Seq<char>>>) -> Result<Option<Seq<char>>, Seq<char>> {
    let names = file_names(tags);
    if names.len() > 1 {
        Err("Multiple fileName tags found: "@ + debug_list_text(names.take(2)))
    } else if names.len() == 1 {
        Ok(Some(names[0]))
    } else {
        Ok(None)
    }
}

/// The size of the file.
pub open spec fn size_of(tags: Seq<Seq<Seq<char>>>) -> Result<u64, Seq<char>> {
    let written = sizes(tags);
    if written.len() == 0 {
        Err("Missing required size."@)
    } else {
        match read_u64(written[0]) {
            Ok(size) => Ok(size),
            Err(error) => Err("Error parsing size: "@ + error),
        }
    }
}

/// What is said where a tag that may stand once stands more often.
pub open spec fn too_many(name: Seq<char>, count: nat) -> Seq<char> {
    "Expected 1 tag named "@ + name + " but found "@ + decimal_text(count)
}

/// The size of the blocks that the file is cut into, if its tags give one.
pub open spec fn block_size_of(tags: Seq<Seq<Seq<char>>>) -> Result<Option<u64>, Seq<char>> {
    let found = named_values(tags, "blockSize"@);
    if found.len() > 1 {
        Err(too_many("blockSize"@, found.len()))
    } else if found.len() == 0 {
        if references(tags).len() > 1 {
            Err("A multi-part message requires a blockSize argument."@)
        } else {
            Ok(None)
        }
    } else if found[0].len() == 0 {
        Err("Missing value for {tag_name}"@)
    } else {
        match read_u64(found[0][0]) {
            Ok(size) => Ok(Some(size)),
            Err(error) => Err("Invalid value for blockSize: "@ + error),
        }
    }
}

/// A name that leads out of its directory.
pub open spec fn leads_away(file_name: Seq<char>) -> bool {
    occurs(file_name, "/"@) || occurs(file_name, ".."@) || occurs(file_name, "\\"@)
}

/// What a file of several parts must say about itself.
pub open spec fn multi_part_check(tags: Seq<Seq<Seq<char>>>) -> Result<(), Seq<char>> {
    match block_size_of(tags) {
        Err(error) => Err(error),
        Ok(_) => match file_name_of(tags) {
            Err(error) => Err(error),
            Ok(None) => Err("a fileName is required."@),
            Ok(Some(file_name)) => if leads_away(file_name) {
                Err("invalid file name"@)
            } else {
                Ok(())
            },
        },
    }
}

/// Whether the relay has something against an event as the description of a
/// file. Events of other kinds describe no file, and it has nothing against
/// those.
pub open spec fn rejection(event: EventView) -> Result<(), Seq<char>> {
    if event.kind != FILE_KIND {
        Ok(())
    } else if references(event.tags).len() == 0 {
        Err("Event must have at least one event ID reference."@)
    } else {
        match size_of(event.tags) {
            Err(error) => Err(error),
            Ok(_) => if references(event.tags).len() > 1 {
                multi_part_check(event.tags)
            } else {
                Ok(())
            },
        }
    }
}

/// A result with a message, by its view.
pub open spec fn told<T>(result: Result<T, String>) -> Result<T, Seq<char>> {
    match result {
        Ok(value) => Ok(value),
        Err(message) => Err(message@),
    }
}

/// A file name that was looked for, by its view.
pub open spec fn told_name(result: Result<Option<String>, String>) -> Result<Option<Seq<char>>, Seq<char>> {
    match result {
        Ok(Some(name)) => Ok(Some(name@)),
        Ok(None) => Ok(None),
        Err(message) => Err(message@),
    }
}

/// The values of a tag that was looked for, by their view.
pub open spec fn told_values(result: Result<Option<Vec<String>>, String>) -> Result<
    Option<Seq<Seq<char>>>,
    Seq<char>,
> {
    match result {
        Ok(Some(values)) => Ok(Some(texts(values@))),
        Ok(None) => Ok(None),
        Err(message) => Err(message@),
    }
}

/// The values of the one tag with the name.
pub open spec fn single(found: Seq<Seq<Seq<char>>>, name: Seq<char>) -> Result<
    Option<Seq<Seq<char>>>,
    Seq<char>,
> {
    if found.len() > 1 {
        Err(too_many(name, found.len()))
    } else if found.len() == 1 {
        Ok(Some(found[0]))
    } else {
        Ok(None)
    }
}

/// The values of the custom tags with the name. There are none under a name
/// that has a kind of its own.
pub open spec fn custom_values(tags: Seq<Seq<Seq<char>>>, name: Seq<char>) -> Seq<Seq<Seq<char>>> {
    if tag_name_of(name) == TagName::Custom {
        named_values(tags, name)
    } else {
        Seq::empty()
    }
}

/// The values of a tag: all but its name.
fn values_of(tag: &Vec<String>) -> (values: Vec<String>)
    requires
        tag@.len() > 0,
    ensures
        texts(values@) == texts(tag@).drop_first(),
{
    let mut values: Vec<String> = Vec::new();
    let mut i: usize = 1;
    while i < tag.len()
        invariant
            1 <= i <= tag.len(),
            values@.len() == i - 1,
            forall|k: int| 0 <= k < i - 1 ==> (#[trigger] values@[k])@ == tag@[k + 1]@,
        decreases tag.len() - i,
    {
        values.push(tag[i].clone());
        i = i + 1;
    }
    proof {
        assert(texts(values@) =~= texts(tag@).drop_first());
    }
    values
}

/// An event, seen as the description of a file.
pub struct FileMeta<'a> {
    pub event: &'a Event,
}

impl<'a> From<&'a Event> for FileMeta<'a> {
    fn from(event: &'a Event) -> (meta: FileMeta<'a>) {
        FileMeta { event }
    }
}

impl<'a> vstd::std_specs::convert::FromSpecImpl<&'a Event> for FileMeta<'a> {
    open spec fn obeys_from_spec() -> bool {
        true
    }

    open spec fn from_spec(event: &'a Event) -> FileMeta<'a> {
        FileMeta { event }
    }
}

impl<'a> FileMeta<'a> {
    /// The tags of the event.
    pub open spec fn tags(&self) -> Seq<Seq<Seq<char>>> {
        self.event@.tags
    }

    /// The events that hold the parts of the file, in order.
    pub fn event_ids(&self) -> (ids: Vec<EventId>)
        ensures
            id_views(ids@) == references(self.tags()),
            reference_rules(self.tags()),
    {
        let mut ids: Vec<EventId> = Vec::new();
        let mut i: usize = 0;
        let ghost tags = self.tags();
        proof {
            assert(id_views(ids@) =~= tags.take(0).filter_map(reference_in()));
        }
        while i < self.event.tags.len()
            invariant
                i <= self.event.tags.len(),
                tags == tag_views(self.event.tags@),
                id_views(ids@) == tags.take(i as int).filter_map(reference_in()),
                forall|k: int| 0 <= k < i ==> reference_rule(#[trigger] tags[k]),
            decreases self.event.tags.len() - i,
        {
            proof {
                tags.lemma_filter_map_take_succ(reference_in(), i as int);
            }
            let ghost before = ids@;
            let found = event_reference(&self.event.tags[i]);
            proof {
                let tag = self.event.tags@[i as int]@;
                assert(tags[i as int] == texts(tag));
                assert(texts(tag).len() >= 2 ==> texts(tag)[0] == tag[0]@ && texts(tag)[1] == tag[1]@);
            }
            match found {
                Some(id) => {
                    ids.push(id);
                    proof {
                        assert(id_views(ids@) =~= id_views(before) + seq![id@]);
                    }
                },
                None => {
                    proof {
                        assert(id_views(ids@) =~= id_views(before) + Seq::<Seq<u8>>::empty());
                    }
                },
            }
            i = i + 1;
        }
        proof {
            assert(tags.take(tags.len() as int) =~= tags);
        }
        ids
    }

    /// Whether several events hold the file.
    pub fn is_multi_part(&self) -> (several: bool)
        ensures
            several == (references(self.tags()).len() > 1),
            reference_rules(self.tags()),
    {
        let ids = self.event_ids();
        proof {
            assert(id_views(ids@).len() == ids@.len());
        }
        ids.len() > 1
    }

    /// The name of the file, if there is one. Two names are an error.
    pub fn file_name(&self) -> (name: Result<Option<String>, String>)
        ensures
            told_name(name) == file_name_of(self.tags()),
            name is Err <==> file_names(self.tags()).len() > 1,
            name is Ok ==> (name->Ok_0 is Some <==> file_names(self.tags()).len() == 1),
            name is Ok && name->Ok_0 is Some ==> name->Ok_0->0@ == file_names(self.tags())[0],
    {
        let mut names: Vec<String> = Vec::new();
        let mut i: usize = 0;
        let ghost tags = self.tags();
        proof {
            assert(texts(names@) =~= tags.take(0).filter_map(file_name_in()));
        }
        while i < self.event.tags.len()
            invariant
                i <= self.event.tags.len(),
                tags == tag_views(self.event.tags@),
                texts(names@) == tags.take(i as int).filter_map(file_name_in()),
            decreases self.event.tags.len() - i,
        {
            let tag = &self.event.tags[i];
            let ghost before = names@;
            proof {
                tags.lemma_filter_map_take_succ(file_name_in(), i as int);
                assert(tags[i as int] == texts(tag@));
            }
            if tag.len() == 2 && tag_name(&tag[0]) == TagName::Custom && same(&tag[0], "fileName") {
                names.push(tag[1].clone());
                proof {
                    assert(texts(names@) =~= texts(before) + seq![tag@[1]@]);
                }
            } else {
                proof {
                    assert(texts(names@) =~= texts(before) + Seq::<Seq<char>>::empty());
                }
            }
            i = i + 1;
        }
        proof {
            assert(tags.take(tags.len() as int) =~= tags);
            assert(texts(names@).len() == names@.len());
        }
        if names.len() > 1 {
            let mut shown: Vec<String> = Vec::new();
            shown.push(names[0].clone());
            shown.push(names[1].clone());
            proof {
                assert(texts(shown@) =~= file_names(tags).take(2));
            }
            Err(cat("Multiple fileName tags found: ", &debug_list(&shown)))
        } else if names.len() == 1 {
            Ok(Some(names[0].clone()))
        } else {
            Ok(None)
        }
    }

    /// The size of the file.
    pub fn size(&self) -> (size: Result<u64, String>)
        ensures
            told(size) == size_of(self.tags()),
            size is Ok ==> sizes(self.tags()).len() > 0 && is_decimal(sizes(self.tags())[0]),
            size is Ok ==> size->Ok_0 == decimal_value(unsigned_part(sizes(self.tags())[0])),
            sizes(self.tags()).len() > 0 && is_decimal(sizes(self.tags())[0]) && decimal_value(
                unsigned_part(sizes(self.tags())[0]),
            ) <= u64::MAX ==> size is Ok,
    {
        let mut written: Vec<String> = Vec::new();
        let mut i: usize = 0;
        let ghost tags = self.tags();
        proof {
            assert(texts(written@) =~= tags.take(0).filter_map(size_in()));
        }
        while i < self.event.tags.len()
            invariant
                i <= self.event.tags.len(),
                tags == tag_views(self.event.tags@),
                texts(written@) == tags.take(i as int).filter_map(size_in()),
            decreases self.event.tags.len() - i,
        {
            let tag = &self.event.tags[i];
            let ghost before = written@;
            proof {
                tags.lemma_filter_map_take_succ(size_in(), i as int);
                assert(tags[i as int] == texts(tag@));
            }
            if tag.len() >= 2 && tag_name(&tag[0]) == TagName::Size {
                written.push(tag[1].clone());
                proof {
                    assert(texts(written@) =~= texts(before) + seq![tag@[1]@]);
                }
            } else {
                proof {
                    assert(texts(written@) =~= texts(before) + Seq::<Seq<char>>::empty());
                }
            }
            i = i + 1;
        }
        proof {
            assert(tags.take(tags.len() as int) =~= tags);
            assert(texts(written@).len() == written@.len());
        }
        if written.len() == 0 {
            return Err("Missing required size.".to_owned());
        }
        match parse_u64(&written[0]) {
            Ok(size) => Ok(size),
            Err(error) => Err(cat("Error parsing size: ", &error)),
        }
    }

    /// The size of the blocks that the file is cut into. A file of several
    /// parts must have one.
    pub fn block_size(&self) -> (size: Result<Option<u64>, String>)
        ensures
            told(size) == block_size_of(self.tags()),
            named_values(self.tags(), "blockSize"@).len() == 0 ==> reference_rules(self.tags()),
    {
        let values = match self.custom_tag("blockSize") {
            Err(error) => return Err(error),
            Ok(None) => {
                if self.is_multi_part() {
                    return Err("A multi-part message requires a blockSize argument.".to_owned());
                }
                return Ok(None);
            },
            Ok(Some(values)) => values,
        };
        proof {
            assert(texts(values@).len() == values@.len());
        }
        if values.len() == 0 {
            return Err("Missing value for {tag_name}".to_owned());
        }
        match parse_u64(&values[0]) {
            Ok(size) => Ok(Some(size)),
            Err(error) => Err(cat("Invalid value for blockSize: ", &error)),
        }
    }

    /// The values of each custom tag with the name.
    fn custom_tags(&self, name: &str) -> (found: Vec<Vec<String>>)
        ensures
            tag_views(found@) == custom_values(self.tags(), name@),
            name@ == "fileName"@ || name@ == "blockSize"@ ==> tag_name_of(name@) == TagName::Custom,
    {
        let mut found: Vec<Vec<String>> = Vec::new();
        if tag_name(name) != TagName::Custom {
            proof {
                assert(tag_views(found@) =~= Seq::<Seq<Seq<char>>>::empty());
            }
            return found;
        }
        let mut i: usize = 0;
        let ghost tags = self.tags();
        proof {
            assert(tag_views(found@) =~= tags.take(0).filter_map(values_under(name@)));
        }
        while i < self.event.tags.len()
            invariant
                i <= self.event.tags.len(),
                tags == tag_views(self.event.tags@),
                tag_views(found@) == tags.take(i as int).filter_map(values_under(name@)),
            decreases self.event.tags.len() - i,
        {
            let tag = &self.event.tags[i];
            let ghost before = found@;
            proof {
                tags.lemma_filter_map_take_succ(values_under(name@), i as int);
                assert(tags[i as int] == texts(tag@));
            }
            if tag.len() > 0 && same(&tag[0], name) {
                let values = values_of(tag);
                found.push(values);
                proof {
                    assert(tag_views(found@) =~= tag_views(before) + seq![texts(values@)]);
                }
            } else {
                proof {
                    assert(tag_views(found@) =~= tag_views(before) + Seq::<Seq<Seq<char>>>::empty());
                }
            }
            i = i + 1;
        }
        proof {
            assert(tags.take(tags.len() as int) =~= tags);
        }
        found
    }

    /// The values of the custom tag with the name, if there is one. More than
    /// one is an error.
    pub fn custom_tag(&self, name: &str) -> (values: Result<Option<Vec<String>>, String>)
        ensures
            told_values(values) == single(custom_values(self.tags(), name@), name@),
            name@ == "fileName"@ || name@ == "blockSize"@ ==> tag_name_of(name@) == TagName::Custom,
    {
        let mut found = self.custom_tags(name);
        proof {
            assert(tag_views(found@).len() == found@.len());
        }
        if found.len() > 1 {
            let head = cat("Expected 1 tag named ", name);
            let head = cat(&head, " but found ");
            return Err(cat(&head, &decimal(found.len() as u64)));
        }
        if found.len() == 1 {
            let ghost before = found@;
            let values = found.remove(0);
            proof {
                assert(tag_views(before)[0] == texts(values@));
            }
            return Ok(Some(values));
        }
        Ok(None)
    }

    /// The values of the custom tag with the name. That there is none is an
    /// error too.
    pub fn require_custom_tag(&self, name: &str) -> (values: Result<Vec<String>, String>)
        ensures
            match single(custom_values(self.tags(), name@), name@) {
                Err(error) => values is Err && values->Err_0@ == error,
                Ok(None) => values is Err && values->Err_0@ == "Required tag "@ + name@ + " is missing"@,
                Ok(Some(found)) => values is Ok && texts(values->Ok_0@) == found,
            },
    {
        match self.custom_tag(name) {
            Err(error) => Err(error),
            Ok(None) => {
                let head = cat("Required tag ", name);
                Err(cat(&head, " is missing"))
            },
            Ok(Some(values)) => Ok(values),
        }
    }

    /// Why the relay does not take an event as the description of a file.
    pub fn reject(event: &Event) -> (result: Result<(), String>)
        ensures
            told(result) == rejection(event@),
            event@.kind == FILE_KIND ==> reference_rules(event@.tags),
    {
        if event.kind != FILE_KIND {
            return Ok(());
        }
        let meta = FileMeta::from(event);
        let ids = meta.event_ids();
        proof {
            assert(id_views(ids@).len() == ids@.len());
        }
        if ids.len() == 0 {
            return Err("Event must have at least one event ID reference.".to_owned());
        }
        match meta.size() {
            Err(error) => return Err(error),
            Ok(_) => {},
        }
        if ids.len() > 1 {
            meta.check_multi_part()
        } else {
            Ok(())
        }
    }

    /// A file of several parts must give its block size, so that clients can
    /// find a byte without fetching every part, and a name that stays where it
    /// is put.
    fn check_multi_part(&self) -> (result: Result<(), String>)
        ensures
            told(result) == multi_part_check(self.tags()),
    {
        match self.block_size() {
            Err(error) => return Err(error),
            Ok(_) => {},
        }
        match self.file_name() {
            Err(error) => Err(error),
            Ok(None) => Err("a fileName is required.".to_owned()),
            Ok(Some(file_name)) => {
                if contains(&file_name, "/") || contains(&file_name, "..") || contains(
                    &file_name,
                    "\\",
                ) {
                    Err("invalid file name".to_owned())
                } else {
                    Ok(())
                }
            },
        }
    }
}

/// A file is described completely or not at all: the relay takes a
/// description exactly when it refers to a part and gives the size of the
/// file and, where there are several parts, gives the size of a block and a
/// file name that stays where it is put.
pub proof fn accepted_files_are_complete(event: EventView)
    requires
        event.kind == FILE_KIND,
    ensures
        rejection(event) is Ok <==> {
            &&& references(event.tags).len() > 0
            &&& size_of(event.tags) is Ok
            &&& references(event.tags).len() > 1 ==> {
                &&& block_size_of(event.tags) is Ok && block_size_of(event.tags)->Ok_0 is Some
                &&& file_name_of(event.tags) is Ok && file_name_of(event.tags)->Ok_0 is Some
                &&& !leads_away(file_name_of(event.tags)->Ok_0->0)
            }
        },
{
}

/// Going through things one part after the other finds the same in them.
proof fn found_part_by_part<A, B>(a: Seq<A>, b: Seq<A>, f: spec_fn(A) -> Option<B>)
    ensures
        (a + b).filter_map(f) == a.filter_map(f) + b.filter_map(f),
    decreases b.len(),
{
    if b.len() == 0 {
        assert(a + b =~= a);
        assert(a.filter_map(f) + b.filter_map(f) =~= a.filter_map(f));
    } else {
        found_part_by_part(a, b.drop_last(), f);
        assert((a + b).drop_last() =~= a + b.drop_last());
        assert((a + b).last() == b.last());
        assert((a + b).filter_map(f) =~= a.filter_map(f) + b.filter_map(f));
    }
}

/// The parts of a file are found tag by tag, in order: each tag that refers to
/// an event gives that event, and no other gives any.
pub proof fn references_are_found_tag_by_tag(
    a: Seq<Seq<Seq<char>>>,
    b: Seq<Seq<Seq<char>>>,
    tag: Seq<Seq<char>>,
)
    ensures
        references(Seq::<Seq<Seq<char>>>::empty()) == Seq::<Seq<u8>>::empty(),
        reference_of(tag) is Some ==> references(seq![tag]) == seq![reference_of(tag)->0],
        reference_of(tag) is None ==> references(seq![tag]) == Seq::<Seq<u8>>::empty(),
        references(a + b) == references(a) + references(b),
{
    Seq::lemma_filter_map_singleton(tag, reference_in());
    found_part_by_part(a, b, reference_in());
}

/// The file names are found tag by tag, in order: a tag of `fileName` and one
/// value gives that value, and no other gives any.
pub proof fn file_names_are_found_tag_by_tag(
    a: Seq<Seq<Seq<char>>>,
    b: Seq<Seq<Seq<char>>>,
    tag: Seq<Seq<char>>,
    name: Seq<char>,
)
    ensures
        file_names(Seq::<Seq<Seq<char>>>::empty()) == Seq::<Seq<char>>::empty(),
        file_names(seq![seq!["fileName"@, name]]) == seq![name],
        tag.len() != 2 || tag[0] != "fileName"@ ==> file_names(seq![tag]) == Seq::<
            Seq<char>,
        >::empty(),
        file_names(a + b) == file_names(a) + file_names(b),
{
    Seq::lemma_filter_map_singleton(tag, file_name_in());
    Seq::lemma_filter_map_singleton(seq!["fileName"@, name], file_name_in());
    found_part_by_part(a, b, file_name_in());
}

/// The sizes are found tag by tag, in order: a tag of `size`, a value and
/// anything more gives that value, and no other gives any.
pub proof fn sizes_are_found_tag_by_tag(
    a: Seq<Seq<Seq<char>>>,
    b: Seq<Seq<Seq<char>>>,
    tag: Seq<Seq<char>>,
    size: Seq<char>,
    more: Seq<Seq<char>>,
)
    ensures
        sizes(Seq::<Seq<Seq<char>>>::empty()) == Seq::<Seq<char>>::empty(),
        sizes(seq![seq!["size"@, size] + more]) == seq![size],
        tag.len() < 2 || tag[0] != "size"@ ==> sizes(seq![tag]) == Seq::<Seq<char>>::empty(),
        sizes(a + b) == sizes(a) + sizes(b),
{
    let given = seq!["size"@, size] + more;
    assert(given[0] == "size"@ && given[1] == size);
    Seq::lemma_filter_map_singleton(tag, size_in());
    Seq::lemma_filter_map_singleton(given, size_in());
    found_part_by_part(a, b, size_in());
}

/// The values under a name are found tag by tag, in order: a tag with the name
/// gives all its values, and no other gives any.
pub proof fn values_are_found_tag_by_tag(
    a: Seq<Seq<Seq<char>>>,
    b: Seq<Seq<Seq<char>>>,
    tag: Seq<Seq<char>>,
    name: Seq<char>,
    values: Seq<Seq<char>>,
)
    ensures
        named_values(Seq::<Seq<Seq<char>>>::empty(), name) == Seq::<Seq<Seq<char>>>::empty(),
        named_values(seq![seq![name] + values], name) == seq![values],
        tag.len() == 0 || tag[0] != name ==> named_values(seq![tag], name) == Seq::<
            Seq<Seq<char>>,
        >::empty(),
        named_values(a + b, name) == named_values(a, name) + named_values(b, name),
        tag_name_of(name) == TagName::Custom ==> custom_values(a, name) == named_values(a, name),
        tag_name_of(name) != TagName::Custom ==> custom_values(a, name) == Seq::<
            Seq<Seq<char>>,
        >::empty(),
{
    let given = seq![name] + values;
    assert(given[0] == name);
    assert(given.drop_first() =~= values);
    Seq::lemma_filter_map_singleton(tag, values_under(name));
    Seq::lemma_filter_map_singleton(given, values_under(name));
    found_part_by_part(a, b, values_under(name));
}

/// Every number of 64 bits is read back as it is written, with a plus before it
/// or not; what is read is what the digits stand for; and anything else is
/// rejected.
pub proof fn numbers_are_read_back(n: u64, text: Seq<char>)
    ensures
        read_u64(decimal_text(n as nat)) == Ok::<u64, Seq<char>>(n),
        read_u64(seq!['+'] + decimal_text(n as nat)) == Ok::<u64, Seq<char>>(n),
        read_u64(text) is Ok <==> is_decimal(text) && decimal_value(unsigned_part(text))
            <= u64::MAX,
        read_u64(text) is Ok ==> read_u64(text)->Ok_0 == decimal_value(unsigned_part(text)),
        read_u64(text) is Err ==> read_u64(text)->Err_0 == parse_u64_error(text),
{
    decimal_round_trip(n as nat);
    let digits = decimal_text(n as nat);
    assert((seq!['+'] + digits).drop_first() =~= digits);
    assert(unsigned_part(seq!['+'] + digits) == digits);
}

/// The first size that is given counts, whatever else is said: what comes
/// behind it changes nothing, and one that is a number is the size.
pub proof fn the_first_size_counts(
    before: Seq<Seq<Seq<char>>>,
    size: u64,
    more: Seq<Seq<char>>,
    after: Seq<Seq<Seq<char>>>,
    text: Seq<char>,
)
    requires
        sizes(before).len() == 0,
    ensures
        size_of(before) == Err::<u64, Seq<char>>("Missing required size."@),
        size_of(before + seq![seq!["size"@, decimal_text(size as nat)] + more] + after) == Ok::<
            u64,
            Seq<char>,
        >(size),
        read_u64(text) is Err ==> size_of(before + seq![seq!["size"@, text] + more] + after)
            == Err::<u64, Seq<char>>("Error parsing size: "@ + parse_u64_error(text)),
        read_u64(text) is Ok ==> size_of(before + seq![seq!["size"@, text] + more] + after)
            == read_u64(text),
{
    numbers_are_read_back(size, text);
    first_size(before, decimal_text(size as nat), more, after);
    first_size(before, text, more, after);
}

proof fn first_size(
    before: Seq<Seq<Seq<char>>>,
    text: Seq<char>,
    more: Seq<Seq<char>>,
    after: Seq<Seq<Seq<char>>>,
)
    requires
        sizes(before).len() == 0,
    ensures
        sizes(before + seq![seq!["size"@, text] + more] + after).len() > 0,
        sizes(before + seq![seq!["size"@, text] + more] + after)[0] == text,
{
    let tag = seq![seq!["size"@, text] + more];
    sizes_are_found_tag_by_tag(before, tag, tag[0], text, more);
    sizes_are_found_tag_by_tag(before + tag, after, tag[0], text, more);
}

/// One file name is the name of the file, none is none, and of several the
/// first two are shown in the error.
pub proof fn one_file_name_counts(tags: Seq<Seq<Seq<char>>>)
    ensures
        file_names(tags).len() == 0 ==> file_name_of(tags) == Ok::<Option<Seq<char>>, Seq<char>>(
            None,
        ),
        file_names(tags).len() == 1 ==> file_name_of(tags) == Ok::<Option<Seq<char>>, Seq<char>>(
            Some(file_names(tags)[0]),
        ),
        file_names(tags).len() > 1 ==> file_name_of(tags) == Err::<Option<Seq<char>>, Seq<char>>(
            "Multiple fileName tags found: "@ + debug_list_text(
                seq![file_names(tags)[0], file_names(tags)[1]],
            ),
        ),
{
    if file_names(tags).len() > 1 {
        assert(file_names(tags).take(2) =~= seq![file_names(tags)[0], file_names(tags)[1]]);
    }
}

/// One block size that is a number is the size of a block; a file of one part
/// may do without, one of several may not; and more than one is an error.
pub proof fn one_block_size_counts(tags: Seq<Seq<Seq<char>>>, size: u64)
    ensures
        ({
            let found = named_values(tags, "blockSize"@);
            let result = block_size_of(tags);
            &&& found.len() == 0 && references(tags).len() <= 1 ==> result == Ok::<
                Option<u64>,
                Seq<char>,
            >(None)
            &&& found.len() == 0 && references(tags).len() > 1 ==> result == Err::<
                Option<u64>,
                Seq<char>,
            >("A multi-part message requires a blockSize argument."@)
            &&& found.len() == 1 && found[0].len() == 0 ==> result == Err::<Option<u64>, Seq<char>>(
                "Missing value for {tag_name}"@,
            )
            &&& found.len() == 1 && found[0].len() > 0 && found[0][0] == decimal_text(size as nat)
                ==> result == Ok::<Option<u64>, Seq<char>>(Some(size))
            &&& found.len() == 1 && found[0].len() > 0 && read_u64(found[0][0]) is Ok ==> result
                == Ok::<Option<u64>, Seq<char>>(Some(read_u64(found[0][0])->Ok_0))
            &&& found.len() == 1 && found[0].len() > 0 && read_u64(found[0][0]) is Err ==> result
                == Err::<Option<u64>, Seq<char>>(
                "Invalid value for blockSize: "@ + parse_u64_error(found[0][0]),
            )
            &&& found.len() > 1 ==> result == Err::<Option<u64>, Seq<char>>(
                "Expected 1 tag named blockSize but found "@ + decimal_text(found.len()),
            )
        }),
{
    let found = named_values(tags, "blockSize"@);
    numbers_are_read_back(size, found[0][0]);
    if found.len() > 1 {
        reveal_strlit("Expected 1 tag named ");
        reveal_strlit("blockSize");
        reveal_strlit(" but found ");
        reveal_strlit("Expected 1 tag named blockSize but found ");
        assert("Expected 1 tag named "@ + "blockSize"@ + " but found "@
            =~= "Expected 1 tag named blockSize but found "@);
    }
}

/// The one tag with a name gives its values, none gives none, and more are an
/// error that says how many.
pub proof fn one_tag_counts(found: Seq<Seq<Seq<char>>>, name: Seq<char>)
    ensures
        found.len() == 0 ==> single(found, name) == Ok::<Option<Seq<Seq<char>>>, Seq<char>>(None),
        found.len() == 1 ==> single(found, name) == Ok::<Option<Seq<Seq<char>>>, Seq<char>>(
            Some(found[0]),
        ),
        found.len() > 1 ==> single(found, name) == Err::<Option<Seq<Seq<char>>>, Seq<char>>(
            "Expected 1 tag named "@ + name + " but found "@ + decimal_text(found.len()),
        ),
{
}

/// A name leads away exactly when it holds a slash, a backslash, or two dots in
/// a row.
pub proof fn names_that_lead_away(file_name: Seq<char>)
    ensures
        leads_away(file_name) <==> {
            ||| exists|i: int| 0 <= i < file_name.len() && #[trigger] file_name[i] == '/'
            ||| exists|i: int| 0 <= i < file_name.len() && #[trigger] file_name[i] == '\\'
            ||| exists|i: int|
                0 <= i < file_name.len() - 1 && #[trigger] file_name[i] == '.' && file_name[i + 1]
                    == '.'
        },
{
    reveal_strlit("/");
    reveal_strlit("..");
    reveal_strlit("\\");
    assert forall|i: int| 0 <= i < file_name.len() && #[trigger] file_name[i] == '/' implies occurs_at(
        file_name,
        "/"@,
        i,
    ) by {
        assert(file_name.subrange(i, i + 1) =~= "/"@);
    }
    assert forall|i: int|
        0 <= i < file_name.len() && #[trigger] file_name[i] == '\\' implies occurs_at(
        file_name,
        "\\"@,
        i,
    ) by {
        assert(file_name.subrange(i, i + 1) =~= "\\"@);
    }
    assert forall|i: int|
        0 <= i < file_name.len() - 1 && #[trigger] file_name[i] == '.' && file_name[i + 1]
            == '.' implies occurs_at(file_name, ".."@, i) by {
        assert(file_name.subrange(i, i + 2) =~= ".."@);
    }
    assert forall|i: int| #[trigger] occurs_at(file_name, "/"@, i) implies file_name[i] == '/' by {
        assert(file_name.subrange(i, i + 1)[0] == file_name[i]);
    }
    assert forall|i: int| #[trigger] occurs_at(file_name, "\\"@, i) implies file_name[i]
        == '\\' by {
        assert(file_name.subrange(i, i + 1)[0] == file_name[i]);
    }
    assert forall|i: int| #[trigger] occurs_at(file_name, ".."@, i) implies file_name[i] == '.'
        && file_name[i + 1] == '.' by {
        assert(file_name.subrange(i, i + 2)[0] == file_name[i]);
        assert(file_name.subrange(i, i + 2)[1] == file_name[i + 1]);
    }
}

/// What is wrong with a description is told, and the first thing counts: that
/// it refers to no part, its size, and of several parts the block size, the
/// name, and where the name leads. Events of other kinds are none of this.
pub proof fn rejections_give_the_first_reason(event: EventView)
    ensures
        ({
            let reason = rejection(event)->Err_0;
            let rejected = rejection(event) is Err;
            let parts = references(event.tags).len();
            let size = size_of(event.tags);
            let block = block_size_of(event.tags);
            let name = file_name_of(event.tags);
            let sized = event.kind == 1065 && parts > 0 && size is Ok;
            let blocks = sized && parts > 1 && block is Ok;
            &&& event.kind != 1065 ==> !rejected
            &&& event.kind == 1065 && parts == 0 ==> rejected && reason
                == "Event must have at least one event ID reference."@
            &&& event.kind == 1065 && parts > 0 && size is Err ==> rejected && reason == size->Err_0
            &&& sized && parts == 1 ==> !rejected
            &&& sized && parts > 1 && block is Err ==> rejected && reason == block->Err_0
            &&& blocks && name is Err ==> rejected && reason == name->Err_0
            &&& blocks && name is Ok && name->Ok_0 is None ==> rejected && reason
                == "a fileName is required."@
            &&& blocks && name is Ok && name->Ok_0 is Some && leads_away(name->Ok_0->0) ==> rejected
                && reason == "invalid file name"@
            &&& blocks && name is Ok && name->Ok_0 is Some && !leads_away(name->Ok_0->0)
                ==> !rejected
        }),
{
}

/// The models of what a description says hold all of it.
pub proof fn descriptions_are_modelled_whole<T>(
    meta: FileMeta,
    value: T,
    text: String,
    values: Vec<String>,
    id: EventId,
)
    ensures
        meta.tags() == meta.event@.tags,
        told(Ok::<T, String>(value)) == Ok::<T, Seq<char>>(value),
        told(Err::<T, String>(text)) == Err::<T, Seq<char>>(text@),
        told_name(Ok(None)) == Ok::<Option<Seq<char>>, Seq<char>>(None),
        told_name(Ok(Some(text))) == Ok::<Option<Seq<char>>, Seq<char>>(Some(text@)),
        told_name(Err(text)) == Err::<Option<Seq<char>>, Seq<char>>(text@),
        told_values(Ok(None)) == Ok::<Option<Seq<Seq<char>>>, Seq<char>>(None),
        told_values(Ok(Some(values))) == Ok::<Option<Seq<Seq<char>>>, Seq<char>>(
            Some(texts(values@)),
        ),
        told_values(Err(text)) == Err::<Option<Seq<Seq<char>>>, Seq<char>>(text@),
        found_reference(Some(id)) == Some(id.bytes@),
        found_reference(None) is None,
{
}

} // verus!
