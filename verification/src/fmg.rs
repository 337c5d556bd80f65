//! Message tables (FMG files) and the layered database of them: the base
//! game's tables, those of two expansions, and custom ones, looked up in the
//! order custom, second expansion, first expansion, base.
use vstd::prelude::*;

use crate::categories::{category_from_name, category_named, FmgCategories};
use crate::text::chars_of;

verus! {

/// One text of a message table: its id and its content.
#[derive(Debug, Clone, PartialEq)]
pub struct FmgText {
    pub id: u32,
    pub content: String,
}

impl View for FmgText {
    type V = (u32, Seq<char>);

    open spec fn view(&self) -> (u32, Seq<char>) {
        (self.id, self.content@)
    }
}

/// The texts of a message table, in file order.
#[derive(Debug, Clone, PartialEq)]
pub struct FmgEntries {
    pub texts: Vec<FmgText>,
}

impl View for FmgEntries {
    type V = Seq<(u32, Seq<char>)>;

    open spec fn view(&self) -> Seq<(u32, Seq<char>)> {
        self.texts@.map_values(|t: FmgText| t@)
    }
}

/// A message table as its XML file describes it.
#[derive(Debug, Clone, PartialEq)]
pub struct Fmg {
    pub filename: String,
    pub compression: String,
    pub version: String,
    pub bigendian: String,
    pub entries: FmgEntries,
}

/// The contents of a message table, as plain values.
pub struct FmgModel {
    pub filename: Seq<char>,
    pub compression: Seq<char>,
    pub version: Seq<char>,
    pub bigendian: Seq<char>,
    pub texts: Seq<(u32, Seq<char>)>,
}

impl View for Fmg {
    type V = FmgModel;

    open spec fn view(&self) -> FmgModel {
        FmgModel {
            filename: self.filename@,
            compression: self.compression@,
            version: self.version@,
            bigendian: self.bigendian@,
            texts: self.entries@,
        }
    }
}

/// One layer of the database: message tables, each with its category.
pub struct FmgDatabase {
    pub entries: Vec<(FmgCategories, Fmg)>,
}

/// The contents of one layer, as plain values.
pub open spec fn entry_model(e: (FmgCategories, Fmg)) -> (FmgCategories, FmgModel) {
    (e.0, e.1@)
}

impl View for FmgDatabase {
    type V = Seq<(FmgCategories, FmgModel)>;

    open spec fn view(&self) -> Seq<(FmgCategories, FmgModel)> {
        self.entries@.map_values(|e: (FmgCategories, Fmg)| entry_model(e))
    }
}

/// The layer of an optional database, as plain values.
pub open spec fn layer_model(d: Option<FmgDatabase>) -> Option<Seq<(FmgCategories, FmgModel)>> {
    match d {
        Some(db) => Some(db@),
        None => None,
    }
}

/// The four layers of message tables: the base game's, the two
/// expansions' and the custom ones, each expansion or custom layer present
/// only where its directory was found.
pub struct FmgDatabases {
    pub base: FmgDatabase,
    pub dlc01: Option<FmgDatabase>,
    pub dlc02: Option<FmgDatabase>,
    pub custom: Option<FmgDatabase>,
}

/// The contents of the four layers, as plain values.
pub struct FmgDatabasesModel {
    pub base: Seq<(FmgCategories, FmgModel)>,
    pub dlc01: Option<Seq<(FmgCategories, FmgModel)>>,
    pub dlc02: Option<Seq<(FmgCategories, FmgModel)>>,
    pub custom: Option<Seq<(FmgCategories, FmgModel)>>,
}

impl View for FmgDatabases {
    type V = FmgDatabasesModel;

    open spec fn view(&self) -> FmgDatabasesModel {
        FmgDatabasesModel {
            base: self.base@,
            dlc01: layer_model(self.dlc01),
            dlc02: layer_model(self.dlc02),
            custom: layer_model(self.custom),
        }
    }
}

/// The first table of a layer that has the given category.
pub open spec fn first_of_category(
    layer: Seq<(FmgCategories, FmgModel)>,
    category: FmgCategories,
) -> Option<FmgModel>
    decreases layer.len(),
{
    if layer.len() == 0 {
        None
    } else if layer[0].0 == category {
        Some(layer[0].1)
    } else {
        first_of_category(layer.drop_first(), category)
    }
}

/// The first table of the given category in a layer that may be absent.
pub open spec fn first_in_layer(
    layer: Option<Seq<(FmgCategories, FmgModel)>>,
    category: FmgCategories,
) -> Option<FmgModel> {
    match layer {
        Some(l) => first_of_category(l, category),
        None => None,
    }
}

/// The table that the database gives for a category: the first one of that
/// category in the custom layer, else in the second expansion's, else in
/// the first expansion's, else in the base layer.
pub open spec fn lookup(db: FmgDatabasesModel, category: FmgCategories) -> Option<FmgModel> {
    if first_in_layer(db.custom, category) is Some {
        first_in_layer(db.custom, category)
    } else if first_in_layer(db.dlc02, category) is Some {
        first_in_layer(db.dlc02, category)
    } else if first_in_layer(db.dlc01, category) is Some {
        first_in_layer(db.dlc01, category)
    } else {
        first_of_category(db.base, category)
    }
}

/// A layer with a table added unless that very table of that category is
/// already in it.
pub open spec fn layer_with(
    layer: Seq<(FmgCategories, FmgModel)>,
    category: FmgCategories,
    fmg: FmgModel,
) -> Seq<(FmgCategories, FmgModel)> {
    if layer.contains((category, fmg)) {
        layer
    } else {
        layer.push((category, fmg))
    }
}

/// `name` ends with the extension `.fmg`.
pub open spec fn has_fmg_extension(name: Seq<char>) -> bool {
    name.len() >= 4 && name.subrange(name.len() - 4, name.len() as int) == seq![
        '.',
        'f',
        'm',
        'g',
    ]
}

/// A table's file name without its `.fmg` extension, if it has one.
pub open spec fn fmg_stem(name: Seq<char>) -> Seq<char> {
    if has_fmg_extension(name) {
        name.take(name.len() - 4)
    } else {
        name
    }
}

/// The category that a table's file name gives: the category named as the
/// file name without `.fmg`, or `GoodsName` where none is.
pub open spec fn category_for(filename: Seq<char>) -> FmgCategories {
    match category_named(fmg_stem(filename)) {
        Some(c) => c,
        None => FmgCategories::GoodsName,
    }
}

/// The layer that a directory's message tables make, each under the
/// category its file name gives.
pub open spec fn layer_of(fmgs: Seq<Fmg>) -> Seq<(FmgCategories, FmgModel)> {
    fmgs.map_values(|f: Fmg| (category_for(f.filename@), f@))
}

/// The layer that a directory makes, where the directory was found.
pub open spec fn layer_of_listing(listing: Option<Vec<Fmg>>) -> Option<
    Seq<(FmgCategories, FmgModel)>,
> {
    match listing {
        Some(fmgs) => Some(layer_of(fmgs@)),
        None => None,
    }
}

/// `name` is that of a file with the extension `xml`, as `Path::extension`
/// reads a file name: the text after its last `.`, where that `.` does not
/// open the name.
pub open spec fn is_xml_name(name: Seq<char>) -> bool {
    name.len() > 4 && name.subrange(name.len() - 4, name.len() as int) == seq!['.', 'x', 'm', 'l']
}

/// The message tables read from the resource directories: for each of the
/// base, first-expansion, second-expansion and custom directories, the
/// tables parsed from its XML files, where that directory was found.
pub struct FmgDirs {
    pub base: Option<Vec<Fmg>>,
    pub dlc01: Option<Vec<Fmg>>,
    pub dlc02: Option<Vec<Fmg>>,
    pub custom: Option<Vec<Fmg>>,
}

/// Whether two strings hold the same text.
fn strings_equal(a: &String, b: &String) -> (r: bool)
    ensures
        r == (a@ == b@),
{
    *a == *b
}

/// Whether two message tables hold the same contents.
fn fmg_equal(a: &Fmg, b: &Fmg) -> (r: bool)
    ensures
        r == (a@ == b@),
{
    if !strings_equal(&a.filename, &b.filename) || !strings_equal(&a.compression, &b.compression)
        || !strings_equal(&a.version, &b.version) || !strings_equal(&a.bigendian, &b.bigendian) {
        return false;
    }
    let ta = &a.entries.texts;
    let tb = &b.entries.texts;
    if ta.len() != tb.len() {
        assert(a@.texts.len() != b@.texts.len());
        return false;
    }
    let mut i: usize = 0;
    while i < ta.len()
        invariant
            ta.len() == tb.len(),
            i <= ta.len(),
            ta == &a.entries.texts,
            tb == &b.entries.texts,
            forall|k: int| 0 <= k < i ==> ta@[k]@ == tb@[k]@,
        decreases ta.len() - i,
    {
        if ta[i].id != tb[i].id || !strings_equal(&ta[i].content, &tb[i].content) {
            assert(a@.texts[i as int] != b@.texts[i as int]);
            return false;
        }
        i += 1;
    }
    assert(a@.texts =~= b@.texts);
    true
}

impl Fmg {
    /// The first text of the table with the given id, if there is one.
    pub fn get_entry(&self, id: u32) -> (r: Option<&FmgText>)
        ensures
            r is Some <==> exists|i: int|
                0 <= i < self.entries.texts.len() && (#[trigger] self.entries.texts@[i]).id == id,
            r matches Some(t) ==> exists|i: int|
                0 <= i < self.entries.texts.len() && self.entries.texts@[i] == *t && t.id == id
                    && forall|k: int| 0 <= k < i ==> (#[trigger] self.entries.texts@[k]).id != id,
    {
        let texts = &self.entries.texts;
        let mut i: usize = 0;
        while i < texts.len()
            invariant
                i <= texts.len(),
                texts == &self.entries.texts,
                forall|k: int| 0 <= k < i ==> (#[trigger] texts@[k]).id != id,
            decreases texts.len() - i,
        {
            if texts[i].id == id {
                return Some(&texts[i]);
            }
            i += 1;
        }
        None
    }

    /// All texts of the table, in file order.
    pub fn get_entries(&self) -> (r: &Vec<FmgText>)
        ensures
            *r == self.entries.texts,
    {
        &self.entries.texts
    }
}

/// The table, if its category is the one looked for.
fn get_fmg_by_category<'a>(category: FmgCategories, cat: &'a FmgCategories, fmg: &'a Fmg) -> (r:
    Option<&'a Fmg>)
    ensures
        r == (if *cat == category {
            Some(fmg)
        } else {
            None
        }),
{
    if *cat == category {
        Some(fmg)
    } else {
        None
    }
}

/// The first table of a layer with the given category.
fn find_in_layer(db: &FmgDatabase, category: FmgCategories) -> (r: Option<&Fmg>)
    ensures
        match r {
            Some(f) => first_of_category(db@, category) == Some(f@),
            None => first_of_category(db@, category) is None,
        },
{
    let entries = &db.entries;
    let mut i: usize = 0;
    assert(db@.skip(0) =~= db@);
    while i < entries.len()
        invariant
            i <= entries.len(),
            entries == &db.entries,
            first_of_category(db@, category) == first_of_category(db@.skip(i as int), category),
        decreases entries.len() - i,
    {
        assert(db@.skip(i as int).drop_first() =~= db@.skip(i + 1));
        assert(db@.skip(i as int)[0] == entry_model(entries@[i as int]));
        if let Some(f) = get_fmg_by_category(category, &entries[i].0, &entries[i].1) {
            return Some(f);
        }
        i += 1;
    }
    None
}

impl Default for FmgDatabases {
    fn default() -> (r: Self)
        ensures
            r@.base.len() == 0,
            r@.dlc01 is None,
            r@.dlc02 is None,
            r@.custom is None,
    {
        Self::new()
    }
}

impl FmgDatabases {
    /// An empty database: an empty base layer and no other layer.
    pub fn new() -> (r: Self)
        ensures
            r@.base.len() == 0,
            r@.dlc01 is None,
            r@.dlc02 is None,
            r@.custom is None,
    {
        FmgDatabases {
            base: FmgDatabase { entries: Vec::new() },
            dlc01: None,
            dlc02: None,
            custom: None,
        }
    }

    /// The table for a category, preferring the custom layer, then the
    /// second expansion's, then the first expansion's, and finally the base
    /// layer; within a layer, the first table of that category.
    pub fn get_fmg(&self, category: FmgCategories) -> (r: Option<&Fmg>)
        ensures
            match r {
                Some(f) => lookup(self@, category) == Some(f@),
                None => lookup(self@, category) is None,
            },
    {
        if let Some(custom) = &self.custom {
            if let Some(fmg) = find_in_layer(custom, category) {
                return Some(fmg);
            }
        }
        if let Some(dlc02) = &self.dlc02 {
            if let Some(fmg) = find_in_layer(dlc02, category) {
                return Some(fmg);
            }
        }
        if let Some(dlc01) = &self.dlc01 {
            if let Some(fmg) = find_in_layer(dlc01, category) {
                return Some(fmg);
            }
        }
        find_in_layer(&self.base, category)
    }

    /// Installs the tables read from the resource directories: where the
    /// resource directory was found (`dirs` is `Some`), the base layer
    /// becomes that of the base directory and each other layer that of its
    /// directory, or absent where that directory was not found; where it was
    /// not found, nothing changes.
    pub fn read_from_dirs(&mut self, dirs: Option<FmgDirs>) -> (r: &mut Self)
        requires
            dirs matches Some(d) ==> d.base is Some,
        ensures
            *final(self) == *final(r),
            dirs is None ==> *r == *old(self),
            dirs matches Some(d) ==> {
                &&& r@.base == layer_of(d.base.unwrap()@)
                &&& r@.dlc01 == layer_of_listing(d.dlc01)
                &&& r@.dlc02 == layer_of_listing(d.dlc02)
                &&& r@.custom == layer_of_listing(d.custom)
            },
    {
        if let Some(d) = dirs {
            let FmgDirs { base, dlc01, dlc02, custom } = d;
            self.base = match self.read_fmg_files(base) {
                Some(db) => db,
                None => FmgDatabase { entries: Vec::new() },
            };
            self.dlc01 = self.read_fmg_files(dlc01);
            self.dlc02 = self.read_fmg_files(dlc02);
            self.custom = self.read_fmg_files(custom);
        }
        self
    }

    /// The layer that one directory's tables make, each under the category
    /// its file name gives, or none where the directory was not found.
    pub fn read_fmg_files(&self, listing: Option<Vec<Fmg>>) -> (r: Option<FmgDatabase>)
        ensures
            layer_model(r) == layer_of_listing(listing),
    {
        match listing {
            Some(fmgs) => Some(database_of(fmgs)),
            None => None,
        }
    }

    /// Adds a table to the base layer, unless that same table is already
    /// there under that category.
    pub fn add_fmg(&mut self, fmg: Fmg, category: FmgCategories)
        ensures
            final(self)@.base == layer_with(old(self)@.base, category, fmg@),
            final(self)@.dlc01 == old(self)@.dlc01,
            final(self)@.dlc02 == old(self)@.dlc02,
            final(self)@.custom == old(self)@.custom,
    {
        let ghost before = self.base@;
        let mut i: usize = 0;
        while i < self.base.entries.len()
            invariant
                i <= self.base.entries.len(),
                self.base@ == before,
                forall|k: int| 0 <= k < i ==> before[k] != (category, fmg@),
            decreases self.base.entries.len() - i,
        {
            assert(before[i as int] == entry_model(self.base.entries@[i as int]));
            if self.base.entries[i].0 == category && fmg_equal(&self.base.entries[i].1, &fmg) {
                assert(before[i as int] == (category, fmg@));
                return;
            }
            i += 1;
        }
        assert(!before.contains((category, fmg@)));
        let ghost f = fmg@;
        self.base.entries.push((category, fmg));
        assert(self.base@ =~= before.push((category, f)));
    }
}

/// The layer made of `fmgs`, each under the category its file name gives.
fn database_of(fmgs: Vec<Fmg>) -> (r: FmgDatabase)
    ensures
        r@ == layer_of(fmgs@),
{
    let ghost all = fmgs@;
    let mut entries: Vec<(FmgCategories, Fmg)> = Vec::new();
    for f in it: fmgs
        invariant
            it.seq() == all,
            entries@.map_values(|e: (FmgCategories, Fmg)| entry_model(e)) =~= layer_of(
                all.take(it.index() as int),
            ),
    {
        let category = category_for_filename(&f.filename);
        let ghost before = entries@;
        let ghost i = it.index();
        assert(f == all[i as int]);
        entries.push((category, f));
        assert(all.take(i + 1) =~= all.take(i as int).push(f));
        assert(entries@ =~= before.push((category, f)));
        assert(layer_of(all.take(i + 1)) =~= layer_of(all.take(i as int)).push(
            (category_for(f.filename@), f@),
        ));
        assert(entries@.map_values(|e: (FmgCategories, Fmg)| entry_model(e)) =~= before.map_values(
            |e: (FmgCategories, Fmg)| entry_model(e),
        ).push(entry_model((category, f))));
    }
    assert(all.take(all.len() as int) =~= all);
    FmgDatabase { entries }
}

/// The category that a table's file name gives: the category named as the
/// name without its `.fmg` extension, or `GoodsName` where no category has
/// that name.
pub fn category_for_filename(filename: &String) -> (r: FmgCategories)
    ensures
        r == category_for(filename@),
{
    let mut chars = chars_of(filename.as_str());
    let n = chars.len();
    if n >= 4 && chars[n - 4] == '.' && chars[n - 3] == 'f' && chars[n - 2] == 'm' && chars[n - 1]
        == 'g' {
        assert(has_fmg_extension(chars@)) by {
            assert(chars@.subrange(n - 4, n as int) =~= seq!['.', 'f', 'm', 'g']);
        }
        chars.truncate(n - 4);
    } else {
        assert(!has_fmg_extension(chars@)) by {
            if n >= 4 {
                let tail = chars@.subrange(n - 4, n as int);
                assert(tail[0] == chars@[n - 4]);
                assert(tail[1] == chars@[n - 3]);
                assert(tail[2] == chars@[n - 2]);
                assert(tail[3] == chars@[n - 1]);
            }
        }
    }
    match category_from_name(&chars) {
        Some(c) => c,
        None => FmgCategories::GoodsName,
    }
}

/// Whether a directory entry's file name has the extension `xml`, the files
/// that hold message tables.
pub fn is_xml_file_name(name: &str) -> (r: bool)
    ensures
        r == is_xml_name(name@),
{
    let chars = chars_of(name);
    let n = chars.len();
    if n > 4 && chars[n - 4] == '.' && chars[n - 3] == 'x' && chars[n - 2] == 'm' && chars[n - 1]
        == 'l' {
        assert(chars@.subrange(n - 4, n as int) =~= seq!['.', 'x', 'm', 'l']);
        true
    } else {
        proof {
            if n > 4 {
                let tail = chars@.subrange(n - 4, n as int);
                assert(tail[0] == chars@[n - 4]);
                assert(tail[1] == chars@[n - 3]);
                assert(tail[2] == chars@[n - 2]);
                assert(tail[3] == chars@[n - 1]);
            }
        }
        false
    }
}

/// Adding the same table under the same category twice leaves the base
/// layer as adding it once does: a table is never held twice.
pub proof fn law_add_fmg_idempotent(
    layer: Seq<(FmgCategories, FmgModel)>,
    category: FmgCategories,
    fmg: FmgModel,
)
    ensures
        layer_with(layer_with(layer, category, fmg), category, fmg) == layer_with(
            layer,
            category,
            fmg,
        ),
{
    let once = layer_with(layer, category, fmg);
    if !layer.contains((category, fmg)) {
        assert(once[layer.len() as int] == (category, fmg));
    }
    assert(once.contains((category, fmg)));
}

/// After a table is added, the base layer holds it under its category, and
/// every table it held before.
pub proof fn law_add_fmg_holds(
    layer: Seq<(FmgCategories, FmgModel)>,
    category: FmgCategories,
    fmg: FmgModel,
)
    ensures
        layer_with(layer, category, fmg).contains((category, fmg)),
        forall|i: int|
            0 <= i < layer.len() ==> #[trigger] layer_with(layer, category, fmg)[i] == layer[i],
{
    if !layer.contains((category, fmg)) {
        assert(layer.push((category, fmg))[layer.len() as int] == (category, fmg));
    }
}

/// A table added for a category that no layer had is the table then found
/// for that category.
pub proof fn law_get_after_add(db: FmgDatabasesModel, category: FmgCategories, fmg: FmgModel)
    requires
        lookup(db, category) is None,
    ensures
        lookup(FmgDatabasesModel { base: layer_with(db.base, category, fmg), ..db }, category)
            == Some(fmg),
{
    lemma_first_of_category_push(db.base, category, fmg);
    if db.base.contains((category, fmg)) {
        let i = choose|i: int| 0 <= i < db.base.len() && db.base[i] == (category, fmg);
        lemma_first_of_category_some(db.base, category, i);
    }
}

/// The database prefers the custom layer, then the second expansion's,
/// then the first expansion's, and finally the base layer: a layer's table
/// is found only where no layer before it has one of that category.
pub proof fn law_get_fmg_precedence(db: FmgDatabasesModel, category: FmgCategories)
    ensures
        first_in_layer(db.custom, category) is Some ==> lookup(db, category) == first_in_layer(
            db.custom,
            category,
        ),
        first_in_layer(db.custom, category) is None && first_in_layer(db.dlc02, category) is Some
            ==> lookup(db, category) == first_in_layer(db.dlc02, category),
        first_in_layer(db.custom, category) is None && first_in_layer(db.dlc02, category) is None
            && first_in_layer(db.dlc01, category) is Some ==> lookup(db, category)
            == first_in_layer(db.dlc01, category),
        first_in_layer(db.custom, category) is None && first_in_layer(db.dlc02, category) is None
            && first_in_layer(db.dlc01, category) is None ==> lookup(db, category)
            == first_of_category(db.base, category),
{
}

/// A table named after a category, with the extension `.fmg`, is filed
/// under that category.
pub proof fn law_category_for_table_name(c: FmgCategories)
    ensures
        category_for(c.spec_name() + seq!['.', 'f', 'm', 'g']) == c,
{
    let name = c.spec_name() + seq!['.', 'f', 'm', 'g'];
    assert(name.subrange(name.len() - 4, name.len() as int) =~= seq!['.', 'f', 'm', 'g']);
    assert(name.take(name.len() - 4) =~= c.spec_name());
    crate::categories::lemma_category_named(c.spec_name());
    let found = category_named(c.spec_name())->0;
    crate::categories::lemma_names_distinct(found, c);
}

/// Within a layer, the table found for a category is the one at the
/// smallest position that has that category.
pub proof fn law_first_of_category_is_first(
    layer: Seq<(FmgCategories, FmgModel)>,
    category: FmgCategories,
    i: int,
)
    requires
        0 <= i < layer.len(),
        layer[i].0 == category,
        forall|k: int| 0 <= k < i ==> layer[k].0 != category,
    ensures
        first_of_category(layer, category) == Some(layer[i].1),
    decreases i,
{
    if i > 0 {
        assert forall|k: int| 0 <= k < i - 1 implies layer.drop_first()[k].0 != category by {
            assert(layer.drop_first()[k] == layer[k + 1]);
        }
        law_first_of_category_is_first(layer.drop_first(), category, i - 1);
    }
}

/// A layer without a table of a category finds none for it.
pub proof fn law_first_of_category_absent(
    layer: Seq<(FmgCategories, FmgModel)>,
    category: FmgCategories,
)
    requires
        forall|k: int| 0 <= k < layer.len() ==> layer[k].0 != category,
    ensures
        first_of_category(layer, category) is None,
    decreases layer.len(),
{
    if layer.len() > 0 {
        assert forall|k: int| 0 <= k < layer.len() - 1 implies layer.drop_first()[k].0
            != category by {
            assert(layer.drop_first()[k] == layer[k + 1]);
        }
        law_first_of_category_absent(layer.drop_first(), category);
    }
}

/// Appending a table to a layer that already has one of that category
/// leaves the table found for it unchanged.
pub proof fn law_first_of_category_push(
    layer: Seq<(FmgCategories, FmgModel)>,
    category: FmgCategories,
    fmg: FmgModel,
)
    requires
        first_of_category(layer, category) is Some,
    ensures
        first_of_category(layer.push((category, fmg)), category) == first_of_category(
            layer,
            category,
        ),
    decreases layer.len(),
{
    if layer.len() > 0 && layer[0].0 != category {
        law_first_of_category_push(layer.drop_first(), category, fmg);
        assert(layer.push((category, fmg)).drop_first() =~= layer.drop_first().push(
            (category, fmg),
        ));
    }
}

/// In a database with only a base layer, the table found for a category
/// is the base layer's first table of that category.
pub proof fn law_get_fmg_base_first(db: FmgDatabasesModel, category: FmgCategories, i: int)
    requires
        db.custom is None,
        db.dlc02 is None,
        db.dlc01 is None,
        0 <= i < db.base.len(),
        db.base[i].0 == category,
        forall|k: int| 0 <= k < i ==> db.base[k].0 != category,
    ensures
        lookup(db, category) == Some(db.base[i].1),
{
    law_first_of_category_is_first(db.base, category, i);
}

/// A layer without a table of some category finds, after a push of one,
/// the pushed table.
proof fn lemma_first_of_category_push(
    layer: Seq<(FmgCategories, FmgModel)>,
    category: FmgCategories,
    fmg: FmgModel,
)
    requires
        first_of_category(layer, category) is None,
    ensures
        first_of_category(layer.push((category, fmg)), category) == Some(fmg),
    decreases layer.len(),
{
    if layer.len() > 0 {
        lemma_first_of_category_push(layer.drop_first(), category, fmg);
        assert(layer.push((category, fmg)).drop_first() =~= layer.drop_first().push(
            (category, fmg),
        ));
    }
}

/// A layer that holds a table of some category finds one.
proof fn lemma_first_of_category_some(
    layer: Seq<(FmgCategories, FmgModel)>,
    category: FmgCategories,
    i: int,
)
    requires
        0 <= i < layer.len(),
        layer[i].0 == category,
    ensures
        first_of_category(layer, category) is Some,
    decreases i,
{
    if i > 0 && layer[0].0 != category {
        lemma_first_of_category_some(layer.drop_first(), category, i - 1);
    }
}

} // verus!
