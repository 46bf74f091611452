//! The page table: which wallpaper, dialogue and characters each page shows.
//!
//! The table is stored as consecutive records. A record is the wallpaper
//! index (8 bytes, big-endian), the dialogue index (8 bytes, big-endian),
//! the number of characters (1 byte), then for each character its texture
//! index (8 bytes, big-endian) and its location (1 byte). Reading stops when
//! fewer than 8 bytes are left.
use vstd::prelude::*;

use crate::character::{CharacterLocation, location_of_byte};

verus! {

/// The unsigned number that the bytes `s` spell, most significant first.
pub open spec fn be_value(s: Seq<u8>) -> nat
    decreases s.len(),
{
    if s.len() == 0 {
        0
    } else {
        be_value(s.drop_last()) * 256 + s.last() as nat
    }
}

/// `256` to the power `i`.
pub open spec fn pow256(i: nat) -> nat
    decreases i,
{
    if i == 0 {
        1
    } else {
        256 * pow256((i - 1) as nat)
    }
}

proof fn lemma_pow256_mono(i: nat, j: nat)
    requires
        i <= j,
    ensures
        pow256(i) <= pow256(j),
    decreases j,
{
    if i < j {
        lemma_pow256_mono(i, (j - 1) as nat);
    }
}

/// Size in bytes of a record with `n` characters.
pub open spec fn record_size(n: nat) -> nat {
    17 + 9 * n
}

/// The characters of the record at the front of `b`: texture index and location.
pub open spec fn record_characters(b: Seq<u8>) -> Seq<(nat, CharacterLocation)> {
    Seq::new(
        b[16] as nat,
        |j: int|
            (
                be_value(b.subrange(17 + 9 * j, 25 + 9 * j)),
                location_of_byte(b[25 + 9 * j]).unwrap(),
            ),
    )
}

/// The records of a table: wallpaper index, dialogue index and characters.
pub open spec fn table_records(b: Seq<u8>) -> Seq<(nat, nat, Seq<(nat, CharacterLocation)>)>
    decreases b.len(),
{
    if b.len() < 8 || b.len() < record_size(b[16] as nat) {
        Seq::empty()
    } else {
        seq![
            (
                be_value(b.subrange(0, 8)),
                be_value(b.subrange(8, 16)),
                record_characters(b),
            ),
        ] + table_records(b.skip(record_size(b[16] as nat) as int))
    }
}

/// The table can be read: every record that starts is complete, holds known
/// locations, and its indices fit in `usize`.
pub open spec fn table_valid(b: Seq<u8>) -> bool
    decreases b.len(),
{
    b.len() < 8 || {
        &&& b.len() >= record_size(b[16] as nat)
        &&& be_value(b.subrange(0, 8)) <= usize::MAX
        &&& be_value(b.subrange(8, 16)) <= usize::MAX
        &&& forall|j: int|
            0 <= j < b[16] ==> {
                &&& (#[trigger] location_of_byte(b[25 + 9 * j])) is Some
                &&& be_value(b.subrange(17 + 9 * j, 25 + 9 * j)) <= usize::MAX
            }
        &&& table_valid(b.skip(record_size(b[16] as nat) as int))
    }
}

/// Reads the number stored big-endian in `b[at..at + 8]`.
pub fn read_be_u64(b: &[u8], at: usize) -> (r: u64)
    requires
        at + 8 <= b@.len(),
    ensures
        r == be_value(b@.subrange(at as int, at + 8)),
{
    let mut acc: u64 = 0;
    let mut i: usize = 0;
    assert(b@.subrange(at as int, at as int) =~= Seq::<u8>::empty());
    assert(pow256(8) == 0x1_0000_0000_0000_0000) by {
        reveal_with_fuel(pow256, 9);
    }
    while i < 8
        invariant
            i <= 8,
            at + 8 <= b.len(),
            b.len() == b@.len(),
            acc == be_value(b@.subrange(at as int, at + i)),
            acc < pow256(i as nat),
            pow256(8) == 0x1_0000_0000_0000_0000,
        decreases 8 - i,
    {
        proof {
            lemma_pow256_mono((i + 1) as nat, 8);
            assert(b@.subrange(at as int, at + i + 1).drop_last() =~= b@.subrange(
                at as int,
                at + i,
            ));
        }
        acc = acc * 256 + b[at + i] as u64;
        i = i + 1;
    }
    acc
}


/// Whether `table` can be read (see `table_valid`).
pub fn check_table(table: &[u8]) -> (r: bool)
    ensures
        r == table_valid(table@),
{
    let mut pos: usize = 0;
    assert(table@.skip(0) =~= table@);
    while table.len() - pos >= 8
        invariant
            pos <= table.len(),
            table.len() == table@.len(),
            table_valid(table@) == table_valid(table@.skip(pos as int)),
        decreases table.len() - pos,
    {
        let ghost rest = table@.skip(pos as int);
        if table.len() - pos < 17 {
            return false;
        }
        assert(rest.subrange(0, 8) =~= table@.subrange(pos as int, pos + 8));
        assert(rest.subrange(8, 16) =~= table@.subrange(pos + 8, pos + 16));
        assert(rest[16] == table@[pos + 16]);
        let count = table[pos + 16];
        if table.len() - pos < 17 + 9 * (count as usize) {
            return false;
        }
        let wallpaper = read_be_u64(table, pos);
        let dialogue = read_be_u64(table, pos + 8);
        if wallpaper > usize::MAX as u64 || dialogue > usize::MAX as u64 {
            return false;
        }
        let mut j: u8 = 0;
        while j < count
            invariant
                j <= count,
                count == rest[16],
                rest == table@.skip(pos as int),
                table_valid(table@) == table_valid(rest),
                rest.len() >= record_size(count as nat),
                pos + rest.len() == table.len(),
                table.len() == table@.len(),
                forall|m: int|
                    0 <= m < j ==> {
                        &&& (#[trigger] location_of_byte(rest[25 + 9 * m])) is Some
                        &&& be_value(rest.subrange(17 + 9 * m, 25 + 9 * m)) <= usize::MAX
                    },
            decreases count - j,
        {
            let at = pos + 17 + 9 * (j as usize);
            assert(rest.subrange(17 + 9 * j, 25 + 9 * j) =~= table@.subrange(at as int, at + 8));
            assert(rest[25 + 9 * j] == table@[at + 8]);
            let index = read_be_u64(table, at);
            if index > usize::MAX as u64 || CharacterLocation::from_byte(table[at + 8]).is_none() {
                assert(!({
                    &&& (location_of_byte(rest[25 + 9 * (j as int)])) is Some
                    &&& be_value(rest.subrange(17 + 9 * (j as int), 25 + 9 * (j as int))) <= usize::MAX
                }));
                assert(!table_valid(rest));
                return false;
            }
            j = j + 1;
        }
        let next = pos + 17 + 9 * (count as usize);
        assert(rest.skip(record_size(count as nat) as int) =~= table@.skip(next as int));
        pos = next;
    }
    true
}

/// The characters of a page as numbers and locations.
pub open spec fn characters_view(v: Seq<(usize, CharacterLocation)>) -> Seq<(nat, CharacterLocation)> {
    v.map_values(|c: (usize, CharacterLocation)| (c.0 as nat, c.1))
}

/// A call of `next_page` from `page` in a table of `pages` pages: whether it
/// moves, and the page open afterwards.
pub open spec fn turn_page(page: nat, pages: nat) -> (bool, nat) {
    if page + 1 < pages {
        (true, page + 1)
    } else {
        (false, page)
    }
}

/// The page open after `n` calls of `next_page` from `page`.
pub open spec fn turn_pages(page: nat, pages: nat, n: nat) -> nat
    decreases n,
{
    if n == 0 {
        page
    } else {
        turn_pages(turn_page(page, pages).1, pages, (n - 1) as nat)
    }
}

/// Turning pages walks forward one page at a time and stops at the last page:
/// from an open page, `n` calls reach page `min(page + n, pages - 1)`.
pub proof fn lemma_turning_stops_at_last_page(page: nat, pages: nat, n: nat)
    requires
        page < pages,
    ensures
        turn_pages(page, pages, n) == if page + n < pages {
            page + n
        } else {
            (pages - 1) as nat
        },
    decreases n,
{
    if n > 0 {
        lemma_turning_stops_at_last_page(turn_page(page, pages).1, pages, (n - 1) as nat);
    }
}

/// What each page shows, and the page that is open.
pub struct PageTable {
    wallpapers: Vec<usize>,
    dialogues: Vec<usize>,
    characters: Vec<Vec<(usize, CharacterLocation)>>,
    page: usize,
}

impl PageTable {
    #[verifier::type_invariant]
    spec fn well_formed(self) -> bool {
        &&& self.wallpapers.len() == self.dialogues.len()
        &&& self.wallpapers.len() == self.characters.len()
    }

    /// For each page: wallpaper index, dialogue index and characters.
    pub closed spec fn records(&self) -> Seq<(nat, nat, Seq<(nat, CharacterLocation)>)> {
        Seq::new(
            self.wallpapers.len() as nat,
            |i: int|
                (
                    self.wallpapers[i] as nat,
                    self.dialogues[i] as nat,
                    characters_view(self.characters[i]@),
                ),
        )
    }

    /// The page that is open.
    pub closed spec fn current(&self) -> nat {
        self.page as nat
    }

    /// Reads a table (see the module's documentation) and opens `saved_page`.
    pub fn new(table: &[u8], saved_page: usize) -> (r: PageTable)
        requires
            table_valid(table@),
        ensures
            r.records() == table_records(table@),
            r.current() == saved_page,
    {
        let mut wallpapers: Vec<usize> = Vec::with_capacity(10);
        let mut dialogues: Vec<usize> = Vec::with_capacity(10);
        let mut characters: Vec<Vec<(usize, CharacterLocation)>> = Vec::with_capacity(10);
        let ghost all = table_records(table@);
        let ghost mut done: Seq<(nat, nat, Seq<(nat, CharacterLocation)>)> = Seq::empty();
        let mut pos: usize = 0;
        assert(table@.skip(0) =~= table@);
        while table.len() - pos >= 8
            invariant
                pos <= table.len(),
                table.len() == table@.len(),
                table_valid(table@.skip(pos as int)),
                all == table_records(table@),
                all == done + table_records(table@.skip(pos as int)),
                wallpapers.len() == done.len(),
                dialogues.len() == done.len(),
                characters.len() == done.len(),
                forall|i: int|
                    0 <= i < done.len() ==> #[trigger] done[i] == (
                        wallpapers[i] as nat,
                        dialogues[i] as nat,
                        characters_view(characters[i]@),
                    ),
            decreases table.len() - pos,
        {
            let ghost rest = table@.skip(pos as int);
            assert(rest.subrange(0, 8) =~= table@.subrange(pos as int, pos + 8));
            assert(rest.subrange(8, 16) =~= table@.subrange(pos + 8, pos + 16));
            assert(rest[16] == table@[pos + 16]);
            let wallpaper = read_be_u64(table, pos);
            let dialogue = read_be_u64(table, pos + 8);
            let count = table[pos + 16];
            let mut page_characters: Vec<(usize, CharacterLocation)> = Vec::with_capacity(
                count as usize,
            );
            let mut j: u8 = 0;
            while j < count
                invariant
                    j <= count,
                    count == rest[16],
                    rest == table@.skip(pos as int),
                    rest.len() >= record_size(count as nat),
                    pos + rest.len() == table.len(),
                    table.len() == table@.len(),
                    forall|m: int|
                        0 <= m < count ==> {
                            &&& (#[trigger] location_of_byte(rest[25 + 9 * m])) is Some
                            &&& be_value(rest.subrange(17 + 9 * m, 25 + 9 * m)) <= usize::MAX
                        },
                    page_characters@.len() == j,
                    forall|m: int|
                        0 <= m < j ==> (#[trigger] characters_view(page_characters@)[m])
                            == record_characters(rest)[m],
                decreases count - j,
            {
                let at = pos + 17 + 9 * (j as usize);
                assert(rest.subrange(17 + 9 * j, 25 + 9 * j) =~= table@.subrange(
                    at as int,
                    at + 8,
                ));
                assert(rest[25 + 9 * j] == table@[at + 8]);
                assert(location_of_byte(rest[25 + 9 * j]) is Some);
                let index = read_be_u64(table, at);
                let location = CharacterLocation::from_byte(table[at + 8]);
                let ghost old_chars = page_characters@;
                page_characters.push((index as usize, location.unwrap()));
                assert forall|m: int| 0 <= m < j + 1 implies (#[trigger] characters_view(
                    page_characters@,
                )[m]) == record_characters(rest)[m] by {
                    if m < j {
                        assert(page_characters@[m] == old_chars[m]);
                        assert(characters_view(old_chars)[m] == record_characters(rest)[m]);
                    }
                }
                j = j + 1;
            }
            assert(characters_view(page_characters@) =~= record_characters(rest));
            let ghost record = (
                be_value(rest.subrange(0, 8)),
                be_value(rest.subrange(8, 16)),
                record_characters(rest),
            );
            assert(table_records(rest) == seq![record] + table_records(
                rest.skip(record_size(count as nat) as int),
            ));
            let ghost old_w = wallpapers@;
            let ghost old_d = dialogues@;
            let ghost old_c = characters@;
            wallpapers.push(wallpaper as usize);
            dialogues.push(dialogue as usize);
            characters.push(page_characters);
            let next = pos + 17 + 9 * (count as usize);
            proof {
                assert(rest.skip(record_size(count as nat) as int) =~= table@.skip(next as int));
                assert(done.push(record) + table_records(table@.skip(next as int)) =~= done
                    + table_records(rest));
                assert forall|i: int| 0 <= i < done.len() + 1 implies #[trigger] done.push(
                    record,
                )[i] == (
                    wallpapers[i] as nat,
                    dialogues[i] as nat,
                    characters_view(characters[i]@),
                ) by {
                    if i < done.len() {
                        assert(wallpapers[i] == old_w[i]);
                        assert(dialogues[i] == old_d[i]);
                        assert(characters[i] == old_c[i]);
                    }
                }
                done = done.push(record);
            }
            pos = next;
        }
        assert(table_records(table@.skip(pos as int)) == Seq::<
            (nat, nat, Seq<(nat, CharacterLocation)>),
        >::empty());
        let r = PageTable { wallpapers, dialogues, characters, page: saved_page };
        assert(r.records() =~= done);
        r
    }

    /// The number of pages.
    pub fn pages(&self) -> (r: usize)
        ensures
            r == self.records().len(),
    {
        self.wallpapers.len()
    }

    /// The page that is open.
    pub fn current_page(&self) -> (r: usize)
        ensures
            r == self.current(),
    {
        self.page
    }

    /// Opens the next page if there is one; says whether it did (see `turn_page`).
    pub fn next_page(&mut self) -> (r: bool)
        ensures
            (r, final(self).current()) == turn_page(old(self).current(), old(self).records().len()),
            final(self).records() == old(self).records(),
    {
        proof {
            use_type_invariant(&*self);
        }
        if self.page < self.wallpapers.len() && self.page + 1 < self.wallpapers.len() {
            self.page = self.page + 1;
            true
        } else {
            false
        }
    }

    /// The characters of the open page: texture index and location.
    pub fn current_character(&self) -> (r: &Vec<(usize, CharacterLocation)>)
        requires
            self.current() < self.records().len(),
        ensures
            characters_view(r@) == self.records()[self.current() as int].2,
    {
        proof {
            use_type_invariant(self);
        }
        &self.characters[self.page]
    }

    /// The wallpaper index of the open page.
    pub fn current_wallpaper(&self) -> (r: usize)
        requires
            self.current() < self.records().len(),
        ensures
            r == self.records()[self.current() as int].0,
    {
        proof {
            use_type_invariant(self);
        }
        self.wallpapers[self.page]
    }

    /// The dialogue index of the open page.
    pub fn current_dialogue(&self) -> (r: usize)
        requires
            self.current() < self.records().len(),
        ensures
            r == self.records()[self.current() as int].1,
    {
        proof {
            use_type_invariant(self);
        }
        self.dialogues[self.page]
    }
}

} // verus!
