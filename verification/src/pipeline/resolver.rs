//! The resolver of the streaming pipeline: it maps the addresses of a script
//! to resources, remembers what it has seen, and learns the files of a
//! character model from the manifest of the model.

use std::rc::Rc;
use vstd::prelude::*;
use vstd::string::*;

use crate::models::bestdori::{ResourcePathView, ResourceView as AddressView};
use crate::pipeline::definition::{BindTicket, ModelConfig, Resource, ResourceView, Root};
use crate::pipeline::error::{
    failure_view, resolve_error_view, Failure, FailureView, ResolveCommonKind, ResolveError,
    ResolveLive2DKind,
};
use crate::pipeline::models::bestdori::{Address, AddressPath, AddressType};
use crate::pipeline::models::live2d::{self, Bundle, Expression, Model, ModelBundle, Motion};
use crate::text::{
    ascii_lowercase, char_is_ascii_alphabetic, char_to_ascii_lowercase, chars_of, decimal,
    is_ascii_alphabetic, push_decimal, string_of,
};
use crate::utils::{gen_name_from_url, name_from_url};

verus! {

/// What a lookup of a plain resource found.
#[derive(Debug)]
pub enum ResolveCommonResult {
    /// The address was new: its resource has to be fetched.
    New(Rc<Resource>),
    /// The address was known: its resource is fetched already.
    Existing(Rc<Resource>),
}

impl ResolveCommonResult {
    /// The resource of the address.
    pub open spec fn resource(self) -> ResourceView {
        match self {
            ResolveCommonResult::New(r) => r@,
            ResolveCommonResult::Existing(r) => r@,
        }
    }

    /// The resource of the address.
    pub fn as_ref(&self) -> (r: &Resource)
        ensures
            r@ == self.resource(),
    {
        match self {
            ResolveCommonResult::New(r) => &**r,
            ResolveCommonResult::Existing(r) => &**r,
        }
    }
}

/// What a lookup of a part of a character model found.
#[derive(Debug)]
pub enum ResolveModelResult {
    /// A file that has to be fetched.
    Normal(Rc<Resource>),
    /// A manifest that has to be fetched, and handed back with its ticket.
    Bind { url: String, task: BindTicket },
    /// Nothing new.
    Existing,
}

/// Where the source platform serves what.
#[derive(Debug)]
pub struct BestdoliConfig {
    pub bundle_root: String,
    pub bgm_bundle: String,
    pub se_common: String,
    pub live2d_bundle: String,
}

/// The file name that stands for `url`, with `extend` behind it.
pub fn url_to_filepath(url: &str, extend: &str) -> (path: String)
    ensures
        path@ == name_from_url(url@, extend@),
{
    gen_name_from_url(url, extend)
}

/// The resource that is fetched from `url` and lands under `root`, named
/// after its address.
pub open spec fn created(root: Root, url: Seq<char>, extend: Seq<char>) -> ResourceView {
    ResourceView { root, url: Some(url), path: name_from_url(url, extend) }
}

/// Makes the resource that is fetched from `url` and lands under `root`.
pub fn create_resource(root: Root, url: String, extend: &str) -> (resource: Rc<Resource>)
    ensures
        resource@ == created(root, url@, extend@),
{
    let path = url_to_filepath(url.as_str(), extend);
    Rc::new(Resource { root, url: Some(url), path })
}

/// The numeral of `character` with three digits.
pub open spec fn padded(character: u8) -> Seq<char> {
    if character < 10 {
        "00"@ + decimal(character as nat)
    } else if character < 100 {
        "0"@ + decimal(character as nat)
    } else {
        decimal(character as nat)
    }
}

/// The directory of a character.
pub open spec fn character_root(character: u8) -> Seq<char> {
    padded(character) + "/"@
}

/// The directory of a model of a character.
pub open spec fn model_root(character: u8, model: Seq<char>) -> Seq<char> {
    character_root(character) + "model/"@ + model + "/"@
}

/// The path of a motion of a character.
pub open spec fn motion_path(character: u8, motion: Seq<char>) -> Seq<char> {
    character_root(character) + "motion/"@ + motion + ".mtn"@
}

/// The path of an expression of a character.
pub open spec fn expression_path(character: u8, expression: Seq<char>) -> Seq<char> {
    character_root(character) + "expression/"@ + expression + ".exp.json"@
}

/// The address of `file` in the bundle `bundle`, served from `root`.
pub open spec fn bundle_url(root: Seq<char>, bundle: Seq<char>, file: Seq<char>) -> Seq<char> {
    root + bundle + "_rip/"@ + file
}

/// The address of an uploaded file.
pub open spec fn custom_url(addr: AddressView) -> Option<Seq<char>> {
    match (addr.kind, addr.path) {
        (AddressType::Custom, ResourcePathView::Url { url }) => Some(url),
        _ => None,
    }
}

/// The address of a file of the platform that names its bundle.
pub open spec fn bundled_url(root: Seq<char>, addr: AddressView, extend: Seq<char>) -> Option<
    Seq<char>,
> {
    match (addr.kind, addr.path) {
        (AddressType::Bandori, ResourcePathView::File { file, bundle: Some(bundle) }) => Some(
            bundle_url(root, bundle, file + extend),
        ),
        _ => None,
    }
}

/// The address of a shared sound effect.
pub open spec fn common_se_url(se_common: Seq<char>, addr: AddressView) -> Option<Seq<char>> {
    match (addr.kind, addr.path) {
        (AddressType::Common, ResourcePathView::File { file, bundle: None }) => Some(
            se_common + file + ".mp3"@,
        ),
        _ => None,
    }
}

/// The place of the last `c` in `s`, if there is one.
pub open spec fn last_place(s: Seq<char>, c: char) -> Option<int>
    decreases s.len(),
{
    if s.len() == 0 {
        None
    } else if s.last() == c {
        Some(s.len() - 1)
    } else {
        last_place(s.drop_last(), c)
    }
}

/// The place of the first ASCII letter of `s` from `from` on, if there is
/// one.
pub open spec fn first_letter(s: Seq<char>, from: int) -> Option<int>
    decreases s.len() - from,
{
    if from < 0 || from >= s.len() {
        None
    } else if is_ascii_alphabetic(s[from]) {
        Some(from)
    } else {
        first_letter(s, from + 1)
    }
}

/// The address of a piece of music with the name of its bundle as the
/// platform spells it: the first letter behind the last but one `/` is a small
/// letter.
pub open spec fn bundle_lowered(url: Seq<char>) -> Seq<char> {
    match last_place(url, '/') {
        Some(last) => match last_place(url.take(last), '/') {
            Some(second) => match first_letter(url, second + 1) {
                Some(at) => url.update(at, ascii_lowercase(url[at])),
                None => url,
            },
            None => url,
        },
        None => url,
    }
}

fn find_last(s: &Vec<char>, end: usize, c: char) -> (r: Option<usize>)
    requires
        end <= s@.len(),
    ensures
        match r {
            Some(i) => last_place(s@.take(end as int), c) == Some(i as int) && i < end,
            None => last_place(s@.take(end as int), c) is None,
        },
{
    let mut i: usize = end;
    while i > 0
        invariant
            i <= end <= s@.len(),
            last_place(s@.take(end as int), c) == last_place(s@.take(i as int), c),
        decreases i,
    {
        proof {
            assert(s@.take(i as int).drop_last() =~= s@.take(i - 1));
        }
        if s[i - 1] == c {
            return Some(i - 1);
        }
        i -= 1;
    }
    None
}

fn find_letter(s: &Vec<char>, from: usize) -> (r: Option<usize>)
    ensures
        match r {
            Some(i) => first_letter(s@, from as int) == Some(i as int) && i < s@.len(),
            None => first_letter(s@, from as int) is None,
        },
{
    let mut i: usize = from;
    while i < s.len()
        invariant
            from <= i,
            first_letter(s@, from as int) == first_letter(s@, i as int),
        decreases s@.len() - i,
    {
        if char_is_ascii_alphabetic(s[i]) {
            return Some(i);
        }
        i += 1;
    }
    None
}

/// Spells the name of the bundle in the address of a piece of music as the
/// platform does.
pub fn lower_bundle(url: &str) -> (r: String)
    ensures
        r@ == bundle_lowered(url@),
{
    let mut chars = chars_of(url);
    let n = chars.len();
    assert(chars@.take(n as int) =~= chars@);
    if let Some(last) = find_last(&chars, n, '/') {
        assert(chars@.take(n as int).take(last as int) =~= chars@.take(last as int));
        if let Some(second) = find_last(&chars, last, '/') {
            if let Some(at) = find_letter(&chars, second + 1) {
                let lowered = char_to_ascii_lowercase(chars[at]);
                chars.set(at, lowered);
            }
        }
    }
    string_of(&chars)
}

/// An address that has been seen, with its resource.
struct Known {
    addr: Address,
    resource: Rc<Resource>,
}

/// The mathematical value of a table of addresses: each with its resource, in
/// the order in which they were seen.
pub type Table = Seq<(AddressView, ResourceView)>;

/// The resource that a table holds for `addr`, if it holds one.
pub open spec fn table_get(table: Table, addr: AddressView) -> Option<ResourceView>
    decreases table.len(),
{
    if table.len() == 0 {
        None
    } else if table[0].0 == addr {
        Some(table[0].1)
    } else {
        table_get(table.drop_first(), addr)
    }
}

spec fn table_view(table: Seq<Known>) -> Table {
    table.map_values(|k: Known| (k.addr@, k.resource@))
}

fn table_lookup(table: &Vec<Known>, addr: &Address) -> (r: Option<Rc<Resource>>)
    ensures
        match r {
            Some(resource) => table_get(table_view(table@), addr@) == Some(resource@),
            None => table_get(table_view(table@), addr@) is None,
        },
{
    let mut i: usize = 0;
    let ghost all = table_view(table@);
    proof {
        assert(all.skip(0) =~= all);
    }
    while i < table.len()
        invariant
            i <= table@.len(),
            all == table_view(table@),
            table_get(all, addr@) == table_get(all.skip(i as int), addr@),
        decreases table@.len() - i,
    {
        proof {
            assert(all.skip(i as int).drop_first() =~= all.skip(i + 1));
            assert(all.skip(i as int)[0] == all[i as int]);
        }
        if table[i].addr.same(addr) {
            return Some(table[i].resource.clone());
        }
        i += 1;
    }
    None
}

/// What a lookup of `addr` in a table gives, where `url` is the address that
/// `addr` stands for if it is new: the resource that is known, or a new
/// resource under `root`, or nothing.
pub open spec fn common_lookup(
    table: Table,
    addr: AddressView,
    url: Option<Seq<char>>,
    root: Root,
    extend: Seq<char>,
) -> (Table, Option<ResourceView>) {
    match table_get(table, addr) {
        Some(resource) => (table, Some(resource)),
        None => match url {
            Some(url) => (
                table.push((addr, created(root, url, extend))),
                Some(created(root, url, extend)),
            ),
            None => (table, None),
        },
    }
}

/// Whether `r` is the outcome of a lookup of `addr` for the use `kind` in
/// `table`.
pub open spec fn common_result(
    r: Result<ResolveCommonResult, Failure>,
    table: Table,
    addr: AddressView,
    url: Option<Seq<char>>,
    root: Root,
    extend: Seq<char>,
    kind: ResolveCommonKind,
) -> bool {
    match table_get(table, addr) {
        Some(resource) => r matches Ok(ResolveCommonResult::Existing(x)) && x@ == resource,
        None => match url {
            Some(url) => r matches Ok(ResolveCommonResult::New(x)) && x@ == created(
                root,
                url,
                extend,
            ),
            None => r matches Err(
                Failure::Resolve(ResolveError::Common { kind: k, addr: a }),
            ) && k == kind && a@ == addr,
        },
    }
}

/// An address that is put at the end of a table is found there, unless it was
/// in the table before; and every other address is found as before.
pub proof fn lemma_table_push(
    table: Table,
    addr: AddressView,
    resource: ResourceView,
    other: AddressView,
)
    ensures
        table_get(table.push((addr, resource)), other) == match table_get(table, other) {
            Some(known) => Some(known),
            None => if other == addr {
                Some(resource)
            } else {
                None
            },
        },
    decreases table.len(),
{
    let after = table.push((addr, resource));
    if table.len() > 0 {
        assert(after[0] == table[0]);
        assert(after.drop_first() =~= table.drop_first().push((addr, resource)));
        if table[0].0 != other {
            lemma_table_push(table.drop_first(), addr, resource, other);
            assert(table_get(after, other) == table_get(after.drop_first(), other));
            assert(table_get(table, other) == table_get(table.drop_first(), other));
        }
    } else {
        assert(after[0] == (addr, resource));
        assert(after.drop_first() =~= Seq::empty());
        assert(table_get(after.drop_first(), other) is None);
        assert(table_get(table, other) is None);
    }
}

/// No resource is handed out as new twice. After a lookup that hands out a
/// resource for an address, the address is known with that resource, so that
/// every later lookup of it finds it; and whatever was known before the
/// lookup is known after it, with the same resource.
pub proof fn lemma_known_after_lookup(
    table: Table,
    addr: AddressView,
    url: Option<Seq<char>>,
    root: Root,
    extend: Seq<char>,
    other: AddressView,
)
    ensures
        ({
            let (after, found) = common_lookup(table, addr, url, root, extend);
            &&& found is Some ==> table_get(after, addr) == found
            &&& found is Some ==> common_lookup(after, addr, url, root, extend) == (after, found)
            &&& table_get(table, other) is Some ==> table_get(after, other) == table_get(
                table,
                other,
            )
        }),
{
    if table_get(table, addr) is None && url is Some {
        let resource = created(root, url.unwrap(), extend);
        lemma_table_push(table, addr, resource, addr);
        lemma_table_push(table, addr, resource, other);
    }
}

fn resolve_common(
    table: &mut Vec<Known>,
    addr: &Address,
    url: Option<String>,
    root: Root,
    extend: &str,
    kind: ResolveCommonKind,
) -> (r: Result<ResolveCommonResult, Failure>)
    ensures
        table_view(final(table)@) == common_lookup(
            table_view(old(table)@),
            addr@,
            match url {
                Some(u) => Some(u@),
                None => None,
            },
            root,
            extend@,
        ).0,
        common_result(
            r,
            table_view(old(table)@),
            addr@,
            match url {
                Some(u) => Some(u@),
                None => None,
            },
            root,
            extend@,
            kind,
        ),
{
    if let Some(existing) = table_lookup(table, addr) {
        return Ok(ResolveCommonResult::Existing(existing));
    }
    match url {
        Some(url) => {
            let resource = create_resource(root, url, extend);
            table.push(Known { addr: addr.clone(), resource: resource.clone() });
            proof {
                assert(table_view(table@) =~= table_view(old(table)@).push(
                    (addr@, resource@),
                ));
            }
            Ok(ResolveCommonResult::New(resource))
        },
        None => Err(Failure::Resolve(ResolveError::Common { kind, addr: addr.clone() })),
    }
}

/// The files of a model, as a mathematical value.
pub struct ModelView {
    pub model: Seq<char>,
    pub physics: Seq<char>,
    pub textures: Seq<Seq<char>>,
}

/// The mathematical value of the files of a model.
pub open spec fn model_view(m: Model) -> ModelView {
    ModelView {
        model: m.model@,
        physics: m.physics@,
        textures: m.textures@.map_values(|t: String| t@),
    }
}

/// The mathematical value of the models of a character: each name with its
/// files.
pub open spec fn models_view(models: Seq<(String, Model)>) -> Seq<(Seq<char>, ModelView)> {
    models.map_values(|m: (String, Model)| (m.0@, model_view(m.1)))
}

/// What the resolver knows of a character.
struct Character {
    id: u8,
    models: Vec<(String, Model)>,
    motion: Vec<String>,
    expression: Vec<String>,
}

/// What the resolver knows of a character, as a mathematical value.
pub struct CharacterView {
    pub id: u8,
    pub models: Seq<(Seq<char>, ModelView)>,
    pub motion: Seq<Seq<char>>,
    pub expression: Seq<Seq<char>>,
}

impl CharacterView {
    /// A character of which nothing is known yet.
    pub open spec fn fresh(id: u8) -> CharacterView {
        CharacterView { id, models: Seq::empty(), motion: Seq::empty(), expression: Seq::empty() }
    }

    /// Whether the model `name` of the character is known.
    pub open spec fn has_model(self, name: Seq<char>) -> bool {
        exists|i: int| 0 <= i < self.models.len() && (#[trigger] self.models[i]).0 == name
    }
}

impl View for Character {
    type V = CharacterView;

    closed spec fn view(&self) -> CharacterView {
        CharacterView {
            id: self.id,
            models: models_view(self.models@),
            motion: self.motion@.map_values(|m: String| m@),
            expression: self.expression@.map_values(|e: String| e@),
        }
    }
}

/// What the resolver has seen and learnt, as a mathematical value.
pub struct ResolverView {
    /// The root that the server of the platform is reached at.
    pub bundle_root: Seq<char>,
    /// Where the shared sound effects are served from.
    pub se_common: Seq<char>,
    /// The bundle of the character models.
    pub live2d_bundle: Seq<char>,
    /// The pieces of music that were seen.
    pub bgm: Table,
    /// The sound effects that were seen.
    pub se: Table,
    /// The backgrounds and stills that were seen.
    pub background: Table,
    /// The models whose manifest is being fetched.
    pub pending: Seq<(u8, Seq<char>)>,
    /// The characters that were seen, in the order of their coming.
    pub characters: Seq<CharacterView>,
    /// The model that each character wore last.
    pub names: Seq<(u8, Seq<char>)>,
    /// The failures that wait to be taken, oldest first.
    pub errors: Seq<FailureView>,
}

impl ResolverView {
    /// The place of the character `id`, if it was seen.
    pub open spec fn place(self, id: u8) -> Option<int> {
        if exists|i: int| 0 <= i < self.characters.len() && (#[trigger] self.characters[i]).id == id {
            Some(
                choose|i: int|
                    0 <= i < self.characters.len() && (#[trigger] self.characters[i]).id == id,
            )
        } else {
            None
        }
    }

    /// The same, with the character `id` seen: where it was not, it comes
    /// last, and nothing is known of it.
    pub open spec fn with_character(self, id: u8) -> ResolverView {
        if self.place(id) is Some {
            self
        } else {
            ResolverView { characters: self.characters.push(CharacterView::fresh(id)), ..self }
        }
    }

    /// Whether the manifest of the model `name` of `character` is being
    /// fetched.
    pub open spec fn is_pending(self, character: u8, name: Seq<char>) -> bool {
        exists|i: int| 0 <= i < self.pending.len() && #[trigger] self.pending[i] == (character, name)
    }

    /// No two characters have the same number.
    pub open spec fn wf(self) -> bool {
        forall|i: int, j: int|
            0 <= i < self.characters.len() && 0 <= j < self.characters.len() && i != j ==> (
            #[trigger] self.characters[i]).id != (#[trigger] self.characters[j]).id
    }
}

/// The resolver of the streaming pipeline.
pub struct DefaultResolver {
    root: String,
    config: BestdoliConfig,
    bgm: Vec<Known>,
    se: Vec<Known>,
    background: Vec<Known>,
    pending: Vec<(u8, String)>,
    characters: Vec<Character>,
    names: Vec<(u8, String)>,
    error: Vec<ResolveError>,
}

impl View for DefaultResolver {
    type V = ResolverView;

    closed spec fn view(&self) -> ResolverView {
        ResolverView {
            bundle_root: self.config.bundle_root@,
            se_common: self.config.se_common@,
            live2d_bundle: self.config.live2d_bundle@,
            bgm: table_view(self.bgm@),
            se: table_view(self.se@),
            background: table_view(self.background@),
            pending: self.pending@.map_values(|p: (u8, String)| (p.0, p.1@)),
            characters: self.characters@.map_values(|c: Character| c@),
            names: self.names@.map_values(|n: (u8, String)| (n.0, n.1@)),
            errors: self.error@.map_values(|e: ResolveError| resolve_error_view(e)),
        }
    }
}

impl DefaultResolver {
    /// A resolver that has seen nothing, for a project at `root`.
    pub fn with_config(root: String, config: BestdoliConfig) -> (resolver: Self)
        ensures
            resolver@ == (ResolverView {
                bundle_root: config.bundle_root@,
                se_common: config.se_common@,
                live2d_bundle: config.live2d_bundle@,
                bgm: Seq::empty(),
                se: Seq::empty(),
                background: Seq::empty(),
                pending: Seq::empty(),
                characters: Seq::empty(),
                names: Seq::empty(),
                errors: Seq::empty(),
            }),
            resolver@.wf(),
    {
        let resolver = DefaultResolver {
            root,
            config,
            bgm: Vec::new(),
            se: Vec::new(),
            background: Vec::new(),
            pending: Vec::new(),
            characters: Vec::new(),
            names: Vec::new(),
            error: Vec::new(),
        };
        proof {
            assert(resolver@.bgm =~= Seq::empty());
            assert(resolver@.se =~= Seq::empty());
            assert(resolver@.background =~= Seq::empty());
            assert(resolver@.pending =~= Seq::empty());
            assert(resolver@.characters =~= Seq::empty());
            assert(resolver@.names =~= Seq::empty());
            assert(resolver@.errors =~= Seq::empty());
        }
        resolver
    }

    /// Builds the address of `file` in the bundle `bundle`, served from `root`.
    fn bundle_to_url_with_root(root: &str, bundle: &str, file: &str) -> (url: String)
        ensures
            url@ == bundle_url(root@, bundle@, file@),
    {
        let mut url = String::from_str(root);
        url.append(bundle);
        url.append("_rip/");
        url.append(file);
        url
    }

    /// Builds the address of `file` with `extend` behind it in the bundle
    /// `bundle`.
    fn bundle_to_url(&self, bundle: &str, file: &str, extend: &str) -> (url: String)
        ensures
            url@ == bundle_url(self@.bundle_root, bundle@, file@ + extend@),
    {
        let mut name = String::from_str(file);
        name.append(extend);
        Self::bundle_to_url_with_root(self.config.bundle_root.as_str(), bundle, name.as_str())
    }

    /// The address of an uploaded file.
    fn try_resolve_custom(addr: &Address) -> (url: Option<String>)
        ensures
            match url {
                Some(u) => custom_url(addr@) == Some(u@),
                None => custom_url(addr@) is None,
            },
    {
        match addr.kind {
            AddressType::Custom => match &addr.path {
                AddressPath::Url { url } => Some(url.clone()),
                _ => None,
            },
            _ => None,
        }
    }

    /// The address of a file of the platform that names its bundle.
    fn try_resolve_bundle(&self, addr: &Address, extend: &str) -> (url: Option<String>)
        ensures
            match url {
                Some(u) => bundled_url(self@.bundle_root, addr@, extend@) == Some(u@),
                None => bundled_url(self@.bundle_root, addr@, extend@) is None,
            },
    {
        match addr.kind {
            AddressType::Bandori => match &addr.path {
                AddressPath::File { file, bundle: Some(bundle) } => Some(
                    self.bundle_to_url(bundle.as_str(), file.as_str(), extend),
                ),
                _ => None,
            },
            _ => None,
        }
    }
}

impl ResolverView {
    /// The address that a piece of music is fetched from, if it has one: its
    /// own, or that of its file in its bundle, the bundle spelt as the
    /// platform does.
    pub open spec fn bgm_url(self, addr: AddressView) -> Option<Seq<char>> {
        match custom_url(addr) {
            Some(url) => Some(url),
            None => match bundled_url(self.bundle_root, addr, ".mp3"@) {
                Some(url) => Some(bundle_lowered(url)),
                None => None,
            },
        }
    }

    /// The address that a sound effect is fetched from, if it has one.
    pub open spec fn se_url(self, addr: AddressView) -> Option<Seq<char>> {
        match custom_url(addr) {
            Some(url) => Some(url),
            None => match bundled_url(self.bundle_root, addr, ".mp3"@) {
                Some(url) => Some(url),
                None => common_se_url(self.se_common, addr),
            },
        }
    }

    /// The address that an image is fetched from, if it has one.
    pub open spec fn image_url(self, addr: AddressView) -> Option<Seq<char>> {
        match custom_url(addr) {
            Some(url) => Some(url),
            None => bundled_url(self.bundle_root, addr, ".png"@),
        }
    }
}

impl DefaultResolver {
    /// Resolves a piece of background music.
    pub fn resolve_bgm(&mut self, addr: &Address) -> (r: Result<ResolveCommonResult, Failure>)
        ensures
            final(self)@ == (ResolverView {
                bgm: common_lookup(
                    old(self)@.bgm,
                    addr@,
                    old(self)@.bgm_url(addr@),
                    Root::Bgm,
                    ".mp3"@,
                ).0,
                ..old(self)@
            }),
            common_result(
                r,
                old(self)@.bgm,
                addr@,
                old(self)@.bgm_url(addr@),
                Root::Bgm,
                ".mp3"@,
                ResolveCommonKind::Bgm,
            ),
    {
        let url = match Self::try_resolve_custom(addr) {
            Some(url) => Some(url),
            None => match self.try_resolve_bundle(addr, ".mp3") {
                Some(url) => Some(lower_bundle(url.as_str())),
                None => None,
            },
        };
        resolve_common(&mut self.bgm, addr, url, Root::Bgm, ".mp3", ResolveCommonKind::Bgm)
    }

    /// Resolves a sound effect.
    pub fn resolve_se(&mut self, addr: &Address) -> (r: Result<ResolveCommonResult, Failure>)
        ensures
            final(self)@ == (ResolverView {
                se: common_lookup(
                    old(self)@.se,
                    addr@,
                    old(self)@.se_url(addr@),
                    Root::Vocal,
                    ".mp3"@,
                ).0,
                ..old(self)@
            }),
            common_result(
                r,
                old(self)@.se,
                addr@,
                old(self)@.se_url(addr@),
                Root::Vocal,
                ".mp3"@,
                ResolveCommonKind::Se,
            ),
    {
        let url = match Self::try_resolve_custom(addr) {
            Some(url) => Some(url),
            None => match self.try_resolve_bundle(addr, ".mp3") {
                Some(url) => Some(url),
                None => match addr.kind {
                    AddressType::Common => match &addr.path {
                        AddressPath::File { file, bundle: None } => {
                            let mut url = self.config.se_common.clone();
                            url.append(file.as_str());
                            url.append(".mp3");
                            Some(url)
                        },
                        _ => None,
                    },
                    _ => None,
                },
            },
        };
        resolve_common(&mut self.se, addr, url, Root::Vocal, ".mp3", ResolveCommonKind::Se)
    }

    /// Resolves a background.
    pub fn resolve_background(&mut self, addr: &Address) -> (r: Result<
        ResolveCommonResult,
        Failure,
    >)
        ensures
            final(self)@ == (ResolverView {
                background: common_lookup(
                    old(self)@.background,
                    addr@,
                    old(self)@.image_url(addr@),
                    Root::Background,
                    ".png"@,
                ).0,
                ..old(self)@
            }),
            common_result(
                r,
                old(self)@.background,
                addr@,
                old(self)@.image_url(addr@),
                Root::Background,
                ".png"@,
                ResolveCommonKind::Background,
            ),
    {
        let url = match Self::try_resolve_custom(addr) {
            Some(url) => Some(url),
            None => self.try_resolve_bundle(addr, ".png"),
        };
        resolve_common(
            &mut self.background,
            addr,
            url,
            Root::Background,
            ".png",
            ResolveCommonKind::Background,
        )
    }

    /// Resolves the still of a card. A still is a background like any other:
    /// it is looked up among the backgrounds and lands with them.
    pub fn resolve_cardstill(&mut self, addr: &Address) -> (r: Result<
        ResolveCommonResult,
        Failure,
    >)
        ensures
            final(self)@ == (ResolverView {
                background: common_lookup(
                    old(self)@.background,
                    addr@,
                    old(self)@.image_url(addr@),
                    Root::Background,
                    ".png"@,
                ).0,
                ..old(self)@
            }),
            common_result(
                r,
                old(self)@.background,
                addr@,
                old(self)@.image_url(addr@),
                Root::Background,
                ".png"@,
                ResolveCommonKind::Background,
            ),
    {
        self.resolve_background(addr)
    }
}

/// The value that a list of pairs holds for `key`, if it holds one: that of
/// the first pair with the key.
pub open spec fn assoc_get<K, V>(pairs: Seq<(K, V)>, key: K) -> Option<V>
    decreases pairs.len(),
{
    if pairs.len() == 0 {
        None
    } else if pairs[0].0 == key {
        Some(pairs[0].1)
    } else {
        assoc_get(pairs.drop_first(), key)
    }
}

/// The place of the first pair with `key`, if there is one.
pub open spec fn assoc_place<K, V>(pairs: Seq<(K, V)>, key: K) -> Option<int>
    decreases pairs.len(),
{
    if pairs.len() == 0 {
        None
    } else if pairs[0].0 == key {
        Some(0)
    } else {
        match assoc_place(pairs.drop_first(), key) {
            Some(i) => Some(i + 1),
            None => None,
        }
    }
}

/// The list with `value` for `key`: in place of the first pair with the key,
/// or, where there is none, at the end.
pub open spec fn assoc_put<K, V>(pairs: Seq<(K, V)>, key: K, value: V) -> Seq<(K, V)> {
    match assoc_place(pairs, key) {
        Some(i) => pairs.update(i, (key, value)),
        None => pairs.push((key, value)),
    }
}

/// The place of the first pair with a key is a place of the list, the pair
/// there has the key and its value is the value of the key; and where there
/// is no such place, the key has no value.
pub proof fn lemma_assoc_place<K, V>(pairs: Seq<(K, V)>, key: K)
    ensures
        match assoc_place(pairs, key) {
            Some(i) => 0 <= i < pairs.len() && pairs[i].0 == key && assoc_get(pairs, key) == Some(
                pairs[i].1,
            ),
            None => assoc_get(pairs, key) is None && forall|j: int|
                0 <= j < pairs.len() ==> (#[trigger] pairs[j]).0 != key,
        },
    decreases pairs.len(),
{
    if pairs.len() > 0 && pairs[0].0 != key {
        lemma_assoc_place(pairs.drop_first(), key);
        if assoc_place(pairs.drop_first(), key) is None {
            assert forall|j: int| 0 <= j < pairs.len() implies (#[trigger] pairs[j]).0 != key by {
                if j > 0 {
                    assert(pairs.drop_first()[j - 1] == pairs[j]);
                }
            }
        }
    }
}

/// Whether `list` holds `text`.
pub open spec fn holds(list: Seq<Seq<char>>, text: Seq<char>) -> bool {
    exists|i: int| 0 <= i < list.len() && #[trigger] list[i] == text
}

impl ResolverView {
    /// The model that is meant when a script names `model` for `character`:
    /// the one it names, or, where it names none, the one the character wore
    /// last, if it wore one.
    pub open spec fn meant(self, character: u8, model: Seq<char>) -> Seq<char> {
        if model.len() == 0 {
            match assoc_get(self.names, character) {
                Some(name) => name,
                None => model,
            }
        } else {
            model
        }
    }

    /// The same, after a script has named `model` for `character`.
    pub open spec fn worn(self, character: u8, model: Seq<char>) -> ResolverView {
        if model.len() == 0 {
            self
        } else {
            ResolverView { names: assoc_put(self.names, character, model), ..self }
        }
    }

    /// Whether the model `name` of `character` is known, or its manifest on
    /// the way.
    pub open spec fn has_model(self, character: u8, name: Seq<char>) -> bool {
        match self.place(character) {
            Some(i) => self.characters[i].has_model(name) || self.is_pending(character, name),
            None => false,
        }
    }

    /// Whether the motion `motion` of `character` was seen.
    pub open spec fn has_motion(self, character: u8, motion: Seq<char>) -> bool {
        match self.place(character) {
            Some(i) => holds(self.characters[i].motion, motion),
            None => false,
        }
    }

    /// Whether the expression `expression` of `character` was seen.
    pub open spec fn has_expression(self, character: u8, expression: Seq<char>) -> bool {
        match self.place(character) {
            Some(i) => holds(self.characters[i].expression, expression),
            None => false,
        }
    }

    /// The same, with the motion `motion` of `character` seen. The character
    /// has to be there.
    pub open spec fn with_motion(self, character: u8, motion: Seq<char>) -> ResolverView {
        let i = self.place(character).unwrap();
        let c = self.characters[i];
        ResolverView {
            characters: self.characters.update(
                i,
                CharacterView { motion: c.motion.push(motion), ..c },
            ),
            ..self
        }
    }

    /// The same, with the expression `expression` of `character` seen. The
    /// character has to be there.
    pub open spec fn with_expression(self, character: u8, expression: Seq<char>) -> ResolverView {
        let i = self.place(character).unwrap();
        let c = self.characters[i];
        ResolverView {
            characters: self.characters.update(
                i,
                CharacterView { expression: c.expression.push(expression), ..c },
            ),
            ..self
        }
    }

    /// The same, with the manifest of the model `name` of `character` on the
    /// way.
    pub open spec fn pended(self, character: u8, name: Seq<char>) -> ResolverView {
        ResolverView { pending: self.pending.push((character, name)), ..self }
    }

    /// The address of `file` among the files that all models of `character`
    /// share.
    pub open spec fn general_url(self, character: u8, file: Seq<char>) -> Seq<char> {
        bundle_url(
            self.bundle_root,
            self.live2d_bundle + padded(character) + "_general"@,
            file,
        )
    }

    /// The address of the manifest of the model `name`.
    pub open spec fn manifest_url(self, name: Seq<char>) -> Seq<char> {
        bundle_url(self.bundle_root, self.live2d_bundle + name, "buildData"@ + ".asset"@)
    }
}

/// Seeing a character keeps the characters apart, and the character is there
/// afterwards: at its old place, or last.
pub proof fn lemma_with_character(s: ResolverView, id: u8)
    requires
        s.wf(),
    ensures
        s.with_character(id).wf(),
        s.with_character(id).place(id) is Some,
        s.with_character(id).characters[s.with_character(id).place(id).unwrap()].id == id,
        s.place(id) is Some ==> s.with_character(id).place(id) == s.place(id),
        s.place(id) is None ==> s.with_character(id).place(id) == Some(s.characters.len() as int)
            && s.with_character(id).characters[s.characters.len() as int] == CharacterView::fresh(
            id,
        ),
{
    let t = s.with_character(id);
    if s.place(id) is None {
        assert(t.characters[s.characters.len() as int].id == id);
        assert forall|i: int, j: int|
            0 <= i < t.characters.len() && 0 <= j < t.characters.len() && i != j implies (
        #[trigger] t.characters[i]).id != (#[trigger] t.characters[j]).id by {
            if i < s.characters.len() {
                assert(s.characters[i].id != id);
            }
            if j < s.characters.len() {
                assert(s.characters[j].id != id);
            }
        }
        let p = t.place(id).unwrap();
        if p < s.characters.len() {
            assert(s.characters[p].id == id);
        }
    }
}

/// A change of what is known of one character keeps the characters apart and
/// at their places.
pub proof fn lemma_update_character(s: ResolverView, i: int, c: CharacterView)
    requires
        s.wf(),
        0 <= i < s.characters.len(),
        c.id == s.characters[i].id,
    ensures
        (ResolverView { characters: s.characters.update(i, c), ..s }).wf(),
        forall|id: u8|
            (ResolverView { characters: s.characters.update(i, c), ..s }).place(id) == s.place(id),
{
    let t = ResolverView { characters: s.characters.update(i, c), ..s };
    assert forall|id: u8| t.place(id) == s.place(id) by {
        if s.place(id) is Some {
            let j = s.place(id).unwrap();
            assert(t.characters[j].id == id);
            let k = t.place(id).unwrap();
            assert(s.characters[k].id == id);
        }
        if t.place(id) is Some {
            let k = t.place(id).unwrap();
            assert(s.characters[k].id == id);
        }
    }
}

fn find_model(models: &Vec<(String, Model)>, name: &str) -> (r: Option<usize>)
    ensures
        match r {
            Some(j) => j < models@.len() && assoc_place(models_view(models@), name@) == Some(
                j as int,
            ),
            None => assoc_place(models_view(models@), name@) is None,
        },
{
    let ghost views = models_view(models@);
    let mut j: usize = 0;
    while j < models.len()
        invariant
            j <= models@.len(),
            views == models_view(models@),
            forall|k: int| 0 <= k < j ==> (#[trigger] views[k]).0 != name@,
        decreases models@.len() - j,
    {
        if str_eq(models[j].0.as_str(), name) {
            proof {
                assert(views[j as int].0 == name@);
                lemma_assoc_first(views, name@, j as int);
            }
            return Some(j);
        }
        j += 1;
    }
    proof {
        lemma_assoc_place(views, name@);
        if assoc_place(views, name@) is Some {
            let p = assoc_place(views, name@).unwrap();
            assert(views[p].0 == name@);
        }
    }
    None
}

fn list_holds(list: &Vec<String>, text: &str) -> (b: bool)
    ensures
        b == holds(list@.map_values(|t: String| t@), text@),
{
    let mut i: usize = 0;
    let ghost views = list@.map_values(|t: String| t@);
    while i < list.len()
        invariant
            i <= list@.len(),
            views == list@.map_values(|t: String| t@),
            forall|j: int| 0 <= j < i ==> #[trigger] views[j] != text@,
        decreases list@.len() - i,
    {
        let same = chars_of(list[i].as_str());
        let want = chars_of(text);
        if vec_eq(&same, &want) {
            assert(views[i as int] == text@);
            return true;
        }
        i += 1;
    }
    false
}

fn vec_eq(a: &Vec<char>, b: &Vec<char>) -> (r: bool)
    ensures
        r == (a@ == b@),
{
    if a.len() != b.len() {
        return false;
    }
    let mut i: usize = 0;
    while i < a.len()
        invariant
            a@.len() == b@.len(),
            i <= a@.len(),
            forall|j: int| 0 <= j < i ==> a@[j] == b@[j],
        decreases a@.len() - i,
    {
        if a[i] != b[i] {
            return false;
        }
        i += 1;
    }
    assert(a@ =~= b@);
    true
}

fn str_eq(a: &str, b: &str) -> (r: bool)
    ensures
        r == (a@ == b@),
{
    vec_eq(&chars_of(a), &chars_of(b))
}

impl DefaultResolver {
    /// Writes the numeral of `character` with three digits.
    fn pad3(character: u8) -> (text: String)
        ensures
            text@ == padded(character),
    {
        let mut text = String::new();
        if character < 10 {
            text.append("00");
        } else if character < 100 {
            text.append("0");
        }
        let ghost head = text@;
        push_decimal(&mut text, character as u64);
        proof {
            if character >= 100 {
                assert(head + decimal(character as nat) =~= decimal(character as nat));
            }
        }
        text
    }

    /// The directory of a character.
    fn get_character_root(character: u8) -> (path: String)
        ensures
            path@ == character_root(character),
    {
        let mut path = Self::pad3(character);
        path.append("/");
        path
    }

    /// The directory of a model of a character.
    fn get_model_root(character: u8, model: &str) -> (path: String)
        ensures
            path@ == model_root(character, model@),
    {
        let mut path = Self::get_character_root(character);
        path.append("model/");
        path.append(model);
        path.append("/");
        path
    }

    /// The path of a motion of a character.
    fn get_motion_path(character: u8, motion: &str) -> (path: String)
        ensures
            path@ == motion_path(character, motion@),
    {
        let mut path = Self::get_character_root(character);
        path.append("motion/");
        path.append(motion);
        path.append(".mtn");
        path
    }

    /// The path of an expression of a character.
    fn get_expression_path(character: u8, expression: &str) -> (path: String)
        ensures
            path@ == expression_path(character, expression@),
    {
        let mut path = Self::get_character_root(character);
        path.append("expression/");
        path.append(expression);
        path.append(".exp.json");
        path
    }

    /// The address of `file` among the files that all models of `character`
    /// share.
    fn get_live2d_general_url(&self, character: u8, file: &str) -> (url: String)
        ensures
            url@ == self@.general_url(character, file@),
    {
        let mut bundle = self.config.live2d_bundle.clone();
        bundle.append(Self::pad3(character).as_str());
        bundle.append("_general");
        Self::bundle_to_url_with_root(self.config.bundle_root.as_str(), bundle.as_str(), file)
    }

    /// The place of the character `id`, if it was seen.
    fn find_character(&self, id: u8) -> (r: Option<usize>)
        requires
            self@.wf(),
        ensures
            match r {
                Some(i) => self@.place(id) == Some(i as int) && i < self.characters@.len(),
                None => self@.place(id) is None,
            },
    {
        let mut i: usize = 0;
        while i < self.characters.len()
            invariant
                self@.wf(),
                i <= self.characters@.len(),
                forall|j: int| 0 <= j < i ==> (#[trigger] self@.characters[j]).id != id,
            decreases self.characters@.len() - i,
        {
            if self.characters[i].id == id {
                proof {
                    assert(self@.characters[i as int].id == id);
                    let j = self@.place(id).unwrap();
                    assert(self@.characters[j].id == id);
                }
                return Some(i);
            }
            i += 1;
        }
        None
    }

    /// Sees to it that the character `id` is there, and gives its place.
    fn ensure_character(&mut self, id: u8) -> (i: usize)
        requires
            old(self)@.wf(),
        ensures
            final(self)@ == old(self)@.with_character(id),
            final(self)@.wf(),
            final(self)@.place(id) == Some(i as int),
            i < final(self).characters@.len(),
    {
        proof {
            lemma_with_character(old(self)@, id);
        }
        match self.find_character(id) {
            Some(i) => i,
            None => {
                self.characters.push(
                    Character {
                        id,
                        models: Vec::new(),
                        motion: Vec::new(),
                        expression: Vec::new(),
                    },
                );
                proof {
                    let fresh = self.characters@[self.characters@.len() - 1];
                    assert(fresh@.models =~= Seq::empty());
                    assert(fresh@.motion =~= Seq::empty());
                    assert(fresh@.expression =~= Seq::empty());
                    assert(self@.characters =~= old(self)@.with_character(id).characters);
                }
                self.characters.len() - 1
            },
        }
    }

    /// Resolves a motion of a character: a motion that was not seen before
    /// has to be fetched from the files that the models of the character
    /// share.
    pub fn resolve_motion(&mut self, character: u8, motion: &str) -> (r: Result<
        ResolveModelResult,
        Failure,
    >)
        requires
            old(self)@.wf(),
        ensures
            final(self)@.wf(),
            final(self)@ == if old(self)@.has_motion(character, motion@) {
                old(self)@
            } else {
                old(self)@.with_character(character).with_motion(character, motion@)
            },
            if old(self)@.has_motion(character, motion@) {
                r matches Ok(ResolveModelResult::Existing)
            } else {
                r matches Ok(ResolveModelResult::Normal(resource)) && resource@ == (ResourceView {
                    root: Root::Figure,
                    url: Some(old(self)@.general_url(character, motion@ + ".mtn"@)),
                    path: motion_path(character, motion@),
                })
            },
    {
        proof {
            lemma_with_character(old(self)@, character);
        }
        let i = self.ensure_character(character);
        let ghost seen = self@;
        if list_holds(&self.characters[i].motion, motion) {
            assert(seen == old(self)@);
            return Ok(ResolveModelResult::Existing);
        }
        let mut c = self.characters.remove(i);
        let ghost before = c@;
        c.motion.push(String::from_str(motion));
        proof {
            assert(c@.motion =~= before.motion.push(motion@));
            assert(c@.models =~= before.models);
            assert(c@.expression =~= before.expression);
        }
        self.characters.insert(i, c);
        proof {
            let want = seen.with_motion(character, motion@);
            assert(self@.characters =~= want.characters);
            lemma_update_character(seen, i as int, want.characters[i as int]);
        }
        let mut file = String::from_str(motion);
        file.append(".mtn");
        Ok(
            ResolveModelResult::Normal(
                Rc::new(
                    Resource {
                        root: Root::Figure,
                        url: Some(self.get_live2d_general_url(character, file.as_str())),
                        path: Self::get_motion_path(character, motion),
                    },
                ),
            ),
        )
    }

    /// Resolves an expression of a character: an expression that was not seen
    /// before has to be fetched from the files that the models of the
    /// character share.
    pub fn resolve_expression(&mut self, character: u8, expression: &str) -> (r: Result<
        ResolveModelResult,
        Failure,
    >)
        requires
            old(self)@.wf(),
        ensures
            final(self)@.wf(),
            final(self)@ == if old(self)@.has_expression(character, expression@) {
                old(self)@
            } else {
                old(self)@.with_character(character).with_expression(character, expression@)
            },
            if old(self)@.has_expression(character, expression@) {
                r matches Ok(ResolveModelResult::Existing)
            } else {
                r matches Ok(ResolveModelResult::Normal(resource)) && resource@ == (ResourceView {
                    root: Root::Figure,
                    url: Some(old(self)@.general_url(character, expression@ + ".exp.json"@)),
                    path: expression_path(character, expression@),
                })
            },
    {
        proof {
            lemma_with_character(old(self)@, character);
        }
        let i = self.ensure_character(character);
        let ghost seen = self@;
        if list_holds(&self.characters[i].expression, expression) {
            assert(seen == old(self)@);
            return Ok(ResolveModelResult::Existing);
        }
        let mut c = self.characters.remove(i);
        let ghost before = c@;
        c.expression.push(String::from_str(expression));
        proof {
            assert(c@.expression =~= before.expression.push(expression@));
            assert(c@.models =~= before.models);
            assert(c@.motion =~= before.motion);
        }
        self.characters.insert(i, c);
        proof {
            let want = seen.with_expression(character, expression@);
            assert(self@.characters =~= want.characters);
            lemma_update_character(seen, i as int, want.characters[i as int]);
        }
        let mut file = String::from_str(expression);
        file.append(".exp.json");
        Ok(
            ResolveModelResult::Normal(
                Rc::new(
                    Resource {
                        root: Root::Figure,
                        url: Some(self.get_live2d_general_url(character, file.as_str())),
                        path: Self::get_expression_path(character, expression),
                    },
                ),
            ),
        )
    }

    /// The number of failures that wait to be taken.
    pub fn error_count(&self) -> (n: usize)
        ensures
            n == self@.errors.len(),
    {
        self.error.len()
    }

    /// Hands out the failures that have been noted, and forgets them.
    pub fn take_error(&mut self) -> (errors: Vec<ResolveError>)
        ensures
            errors@.map_values(|e: ResolveError| resolve_error_view(e)) == old(self)@.errors,
            final(self)@ == (ResolverView { errors: Seq::empty(), ..old(self)@ }),
    {
        let mut errors: Vec<ResolveError> = Vec::new();
        std::mem::swap(&mut self.error, &mut errors);
        proof {
            assert(self@.errors =~= Seq::empty());
        }
        errors
    }
}

/// The list without its first entry that equals `entry`.
pub open spec fn without<T>(list: Seq<T>, entry: T) -> Seq<T>
    decreases list.len(),
{
    if list.len() == 0 {
        list
    } else if list[0] == entry {
        list.drop_first()
    } else {
        seq![list[0]] + without(list.drop_first(), entry)
    }
}

/// The place of the first entry of a list that equals `entry`, if there is
/// one.
pub open spec fn first_place<T>(list: Seq<T>, entry: T) -> Option<int>
    decreases list.len(),
{
    if list.len() == 0 {
        None
    } else if list[0] == entry {
        Some(0)
    } else {
        match first_place(list.drop_first(), entry) {
            Some(i) => Some(i + 1),
            None => None,
        }
    }
}

/// Taking the first entry that equals `entry` out of a list is removing what
/// is at its place; a list without such an entry stays as it is.
pub proof fn lemma_without<T>(list: Seq<T>, entry: T)
    ensures
        match first_place(list, entry) {
            Some(i) => 0 <= i < list.len() && list[i] == entry && without(list, entry)
                == list.remove(i),
            None => without(list, entry) == list && forall|j: int|
                0 <= j < list.len() ==> #[trigger] list[j] != entry,
        },
    decreases list.len(),
{
    if list.len() > 0 && list[0] != entry {
        let rest = list.drop_first();
        lemma_without(rest, entry);
        match first_place(rest, entry) {
            Some(i) => {
                assert(seq![list[0]] + rest.remove(i) =~= list.remove(i + 1));
            },
            None => {
                assert(seq![list[0]] + rest =~= list);
                assert forall|j: int| 0 <= j < list.len() implies #[trigger] list[j] != entry by {
                    if j > 0 {
                        assert(rest[j - 1] == list[j]);
                    }
                }
            },
        }
    } else if list.len() > 0 {
        assert(list.drop_first() =~= list.remove(0));
    }
}

/// The path of a file of a model in the configuration of the model.
pub open spec fn config_path(file: Seq<char>) -> Seq<char> {
    "live2d/"@ + file
}

/// The files of a model as its configuration names them, for a manifest.
pub open spec fn model_info(bundle: ModelBundle) -> ModelView {
    ModelView {
        model: config_path(bundle.model.file@),
        physics: config_path(bundle.physics.file@),
        textures: bundle.textures@.map_values(|t: Bundle| config_path(t.file@)),
    }
}

/// The resource of one file of the model `name` of `character`.
pub open spec fn model_item(root: Seq<char>, character: u8, name: Seq<char>, file: Bundle) -> ResourceView {
    ResourceView {
        root: Root::Figure,
        url: Some(bundle_url(root, file.bundle@, file.file@)),
        path: model_root(character, name) + "/"@ + config_path(file.file@),
    }
}

/// The resources of the files that a manifest names: the textures in their
/// order, then the mesh, then the physics.
pub open spec fn model_items(
    root: Seq<char>,
    character: u8,
    name: Seq<char>,
    bundle: ModelBundle,
) -> Seq<ResourceView> {
    bundle.textures@.map_values(|t: Bundle| model_item(root, character, name, t)).push(
        model_item(root, character, name, bundle.model),
    ).push(model_item(root, character, name, bundle.physics))
}

impl ResolverView {
    /// The same, with the manifest of the model `name` of `character` not on
    /// the way any more.
    pub open spec fn unpended(self, character: u8, name: Seq<char>) -> ResolverView {
        ResolverView { pending: without(self.pending, (character, name)), ..self }
    }

    /// The same, with the files of the model `name` of `character` known.
    /// The character has to be there.
    pub open spec fn with_model(self, character: u8, name: Seq<char>, model: ModelView) -> ResolverView {
        let i = self.place(character).unwrap();
        let c = self.characters[i];
        ResolverView {
            characters: self.characters.update(
                i,
                CharacterView { models: assoc_put(c.models, name, model), ..c },
            ),
            ..self
        }
    }

    /// The same, with one more failure noted.
    pub open spec fn failed(self, failure: FailureView) -> ResolverView {
        ResolverView { errors: self.errors.push(failure), ..self }
    }
}

impl DefaultResolver {
    /// The model that the character wore last, if it wore one.
    fn last_worn(&self, character: u8) -> (r: Option<String>)
        ensures
            match r {
                Some(name) => assoc_get(self@.names, character) == Some(name@),
                None => assoc_get(self@.names, character) is None,
            },
    {
        let mut i: usize = 0;
        let ghost all = self@.names;
        proof {
            assert(all.skip(0) =~= all);
        }
        while i < self.names.len()
            invariant
                i <= self.names@.len(),
                all == self@.names,
                assoc_get(all, character) == assoc_get(all.skip(i as int), character),
            decreases self.names@.len() - i,
        {
            proof {
                assert(all.skip(i as int).drop_first() =~= all.skip(i + 1));
                assert(all.skip(i as int)[0] == all[i as int]);
            }
            if self.names[i].0 == character {
                return Some(self.names[i].1.clone());
            }
            i += 1;
        }
        None
    }

    /// Notes the model that a character wears.
    fn wear(&mut self, character: u8, model: String)
        ensures
            final(self)@ == (ResolverView {
                names: assoc_put(old(self)@.names, character, model@),
                ..old(self)@
            }),
    {
        let mut i: usize = 0;
        let ghost all = self@.names;
        proof {
            lemma_assoc_place(all, character);
        }
        while i < self.names.len()
            invariant
                i <= self.names@.len(),
                all == self@.names,
                *self == *old(self),
                forall|j: int| 0 <= j < i ==> (#[trigger] all[j]).0 != character,
            decreases self.names@.len() - i,
        {
            if self.names[i].0 == character {
                proof {
                    assert(all[i as int].0 == character);
                    lemma_assoc_first(all, character, i as int);
                }
                self.names.set(i, (character, model));
                assert(self@.names =~= assoc_put(all, character, model@));
                return ;
            }
            i += 1;
        }
        self.names.push((character, model));
        assert(self@.names =~= assoc_put(all, character, model@));
    }

    /// Tests whether the manifest of the model `name` of `character` is on
    /// the way.
    fn pending_holds(&self, character: u8, name: &str) -> (b: bool)
        ensures
            b == self@.is_pending(character, name@),
    {
        let mut i: usize = 0;
        while i < self.pending.len()
            invariant
                i <= self.pending@.len(),
                forall|j: int| 0 <= j < i ==> #[trigger] self@.pending[j] != (character, name@),
            decreases self.pending@.len() - i,
        {
            if self.pending[i].0 == character && str_eq(self.pending[i].1.as_str(), name) {
                assert(self@.pending[i as int] == (character, name@));
                return true;
            }
            i += 1;
        }
        false
    }

    /// Tests whether the files of the model `name` of the character at place
    /// `i` are known.
    fn model_known(&self, i: usize, name: &str) -> (b: bool)
        requires
            i < self.characters@.len(),
        ensures
            b == self@.characters[i as int].has_model(name@),
    {
        let found = find_model(&self.characters[i].models, name);
        proof {
            let views = self@.characters[i as int].models;
            assert(views == models_view(self.characters@[i as int].models@));
            lemma_assoc_place(views, name@);
            if found is Some {
                assert(views[found.unwrap() as int].0 == name@);
            }
        }
        found.is_some()
    }

    /// Resolves the model of a character. `model` is the name a script gives,
    /// empty where it gives none, in which case the model the character wore
    /// last is meant; it is replaced by the path of the configuration of the
    /// model. A model that is not known and whose manifest is not on the way
    /// has its manifest fetched.
    pub fn resolve_model(&mut self, character: u8, model: &mut String) -> (r: Result<
        ResolveModelResult,
        Failure,
    >)
        requires
            old(self)@.wf(),
        ensures
            final(self)@.wf(),
            final(model)@ == model_root(
                character,
                old(self)@.meant(character, old(model)@),
            ) + "model.json"@,
            ({
                let name = old(self)@.meant(character, old(model)@);
                let seen = old(self)@.worn(character, old(model)@).with_character(character);
                if old(self)@.has_model(character, name) {
                    &&& final(self)@ == seen
                    &&& r matches Ok(ResolveModelResult::Existing)
                } else {
                    &&& final(self)@ == seen.pended(character, name)
                    &&& r matches Ok(ResolveModelResult::Bind { url, task })
                    &&& url@ == old(self)@.manifest_url(name)
                    &&& task.character == character
                    &&& task.model@ == name
                }
            }),
    {
        if model.as_str().is_empty() {
            if let Some(name) = self.last_worn(character) {
                *model = name;
            }
        } else {
            self.wear(character, model.clone());
        }
        let ghost name = model@;
        let ghost worn = self@;
        proof {
            lemma_with_character(worn, character);
        }
        let exist = match self.find_character(character) {
            Some(i) => self.model_known(i, model.as_str()) || self.pending_holds(
                character,
                model.as_str(),
            ),
            None => false,
        };
        let _ = self.ensure_character(character);
        let root = Self::get_model_root(character, model.as_str());
        let res = if !exist {
            self.pending.push((character, model.clone()));
            proof {
                let want = worn.with_character(character).pended(character, name);
                assert(self@.pending =~= want.pending);
            }
            let mut bundle = self.config.live2d_bundle.clone();
            bundle.append(model.as_str());
            ResolveModelResult::Bind {
                url: self.bundle_to_url(bundle.as_str(), "buildData", ".asset"),
                task: BindTicket { character, model: model.clone() },
            }
        } else {
            ResolveModelResult::Existing
        };
        let mut path = root;
        path.append("model.json");
        *model = path;
        Ok(res)
    }

    /// Takes in the manifest of a model that was fetched for `task`, read or
    /// not. Where it could be read, the files of the model are known from now
    /// on, and the resources of its files are handed out for fetching. Where
    /// it could not, with the reason `Err`, the failure is noted and there is
    /// nothing to fetch.
    pub fn bind_done(&mut self, task: &BindTicket, parsed: Result<ModelBundle, String>) -> (items:
        Vec<Resource>)
        requires
            old(self)@.wf(),
        ensures
            final(self)@.wf(),
            match parsed {
                Ok(bundle) => {
                    &&& final(self)@ == old(self)@.unpended(
                        task.character,
                        task.model@,
                    ).with_character(task.character).with_model(
                        task.character,
                        task.model@,
                        model_info(bundle),
                    )
                    &&& items@.map_values(|r: Resource| r@) == model_items(
                        old(self)@.bundle_root,
                        task.character,
                        task.model@,
                        bundle,
                    )
                },
                Err(message) => {
                    &&& final(self)@ == old(self)@.unpended(task.character, task.model@).failed(
                        FailureView::Live2D {
                            kind: ResolveLive2DKind::Motion,
                            character: task.character,
                            attr: message@,
                        },
                    )
                    &&& items@.len() == 0
                },
            },
    {
        let character = task.character;
        self.unpend(character, task.model.as_str());
        match parsed {
            Ok(bundle) => {
                let ghost cleared = self@;
                proof {
                    lemma_with_character(cleared, character);
                }
                let i = self.ensure_character(character);
                let ghost seen = self@;
                let mut items: Vec<Resource> = Vec::new();
                let mut textures: Vec<String> = Vec::new();
                let mut k: usize = 0;
                let ghost root = self@.bundle_root;
                while k < bundle.textures.len()
                    invariant
                        k <= bundle.textures@.len(),
                        self@ == seen,
                        root == seen.bundle_root,
                        items@.len() == k,
                        textures@.len() == k,
                        forall|j: int|
                            0 <= j < k ==> (#[trigger] items@[j])@ == model_item(
                                root,
                                character,
                                task.model@,
                                bundle.textures@[j],
                            ),
                        forall|j: int|
                            0 <= j < k ==> (#[trigger] textures@[j])@ == config_path(
                                bundle.textures@[j].file@,
                            ),
                    decreases bundle.textures@.len() - k,
                {
                    items.push(self.item_of(character, task.model.as_str(), &bundle.textures[k]));
                    textures.push(Self::bundle_to_path(&bundle.textures[k]));
                    k += 1;
                }
                let info = Model {
                    model: Self::bundle_to_path(&bundle.model),
                    physics: Self::bundle_to_path(&bundle.physics),
                    textures,
                };
                proof {
                    assert(model_view(info).textures =~= model_info(bundle).textures);
                }
                items.push(self.item_of(character, task.model.as_str(), &bundle.model));
                items.push(self.item_of(character, task.model.as_str(), &bundle.physics));
                proof {
                    assert(items@.map_values(|r: Resource| r@) =~= model_items(
                        root,
                        character,
                        task.model@,
                        bundle,
                    ));
                }
                self.learn(i, task.model.clone(), info);
                items
            },
            Err(message) => {
                let ghost cleared = self@;
                self.error.push(
                    ResolveError::Live2D {
                        kind: ResolveLive2DKind::Motion,
                        character,
                        attr: message,
                    },
                );
                proof {
                    assert(self@.errors =~= cleared.errors.push(
                        FailureView::Live2D {
                            kind: ResolveLive2DKind::Motion,
                            character,
                            attr: message@,
                        },
                    ));
                }
                Vec::new()
            },
        }
    }

    /// Takes the manifest of the model `name` of `character` off the list of
    /// those on the way.
    fn unpend(&mut self, character: u8, name: &str)
        ensures
            final(self)@ == old(self)@.unpended(character, name@),
    {
        let ghost all = self@.pending;
        let mut i: usize = 0;
        while i < self.pending.len()
            invariant
                i <= self.pending@.len(),
                *self == *old(self),
                all == self@.pending,
                forall|j: int| 0 <= j < i ==> #[trigger] all[j] != (character, name@),
            decreases self.pending@.len() - i,
        {
            if self.pending[i].0 == character && str_eq(self.pending[i].1.as_str(), name) {
                proof {
                    assert(all[i as int] == (character, name@));
                    lemma_first_place(all, (character, name@), i as int);
                    lemma_without(all, (character, name@));
                }
                let _ = self.pending.remove(i);
                assert(self@.pending =~= all.remove(i as int));
                return ;
            }
            i += 1;
        }
        proof {
            lemma_without(all, (character, name@));
            if first_place(all, (character, name@)) is Some {
                let p = first_place(all, (character, name@)).unwrap();
                assert(all[p] == (character, name@));
            }
        }
    }

    /// The path of a file of a model in the configuration of the model.
    fn bundle_to_path(file: &Bundle) -> (path: String)
        ensures
            path@ == config_path(file.file@),
    {
        let mut path = String::from_str("live2d/");
        path.append(file.file.as_str());
        path
    }

    /// The resource of one file of the model `name` of `character`.
    fn item_of(&self, character: u8, name: &str, file: &Bundle) -> (item: Resource)
        ensures
            item@ == model_item(self@.bundle_root, character, name@, *file),
    {
        let mut path = Self::get_model_root(character, name);
        path.append("/");
        let tail = Self::bundle_to_path(file);
        path.append(tail.as_str());
        Resource {
            root: Root::Figure,
            url: Some(
                Self::bundle_to_url_with_root(
                    self.config.bundle_root.as_str(),
                    file.bundle.as_str(),
                    file.file.as_str(),
                ),
            ),
            path,
        }
    }

    /// Notes the files of the model `name` of the character at place `i`.
    fn learn(&mut self, i: usize, name: String, info: Model)
        requires
            old(self)@.wf(),
            i < old(self).characters@.len(),
        ensures
            final(self)@.wf(),
            final(self)@ == old(self)@.with_model(
                old(self)@.characters[i as int].id,
                name@,
                model_view(info),
            ),
    {
        let ghost id = self@.characters[i as int].id;
        proof {
            assert(self@.characters[i as int].id == id);
            let p = self@.place(id).unwrap();
            assert(self@.characters[p].id == id);
        }
        let mut c = self.characters.remove(i);
        let ghost before = c@;
        let ghost models = before.models;
        let ghost view = model_view(info);
        match find_model(&c.models, name.as_str()) {
            Some(j) => {
                c.models.set(j, (name, info));
            },
            None => {
                c.models.push((name, info));
            },
        }
        proof {
            assert(c@.models =~= assoc_put(models, name@, view));
            assert(c@.motion =~= before.motion);
            assert(c@.expression =~= before.expression);
        }
        self.characters.insert(i, c);
        proof {
            let want = old(self)@.with_model(id, name@, view);
            assert(self@.characters =~= want.characters);
            lemma_update_character(old(self)@, i as int, want.characters[i as int]);
        }
    }
}

/// The first pair with a key is at the first place that has the key.
pub proof fn lemma_assoc_first<K, V>(pairs: Seq<(K, V)>, key: K, i: int)
    requires
        0 <= i < pairs.len(),
        pairs[i].0 == key,
        forall|j: int| 0 <= j < i ==> (#[trigger] pairs[j]).0 != key,
    ensures
        assoc_place(pairs, key) == Some(i),
    decreases pairs.len(),
{
    if i > 0 {
        assert(pairs[0].0 != key);
        let rest = pairs.drop_first();
        assert forall|j: int| 0 <= j < i - 1 implies (#[trigger] rest[j]).0 != key by {
            assert(rest[j] == pairs[j + 1]);
        }
        lemma_assoc_first(rest, key, i - 1);
    }
}

/// The first entry that equals `entry` is at the first place that holds it.
pub proof fn lemma_first_place<T>(list: Seq<T>, entry: T, i: int)
    requires
        0 <= i < list.len(),
        list[i] == entry,
        forall|j: int| 0 <= j < i ==> #[trigger] list[j] != entry,
    ensures
        first_place(list, entry) == Some(i),
    decreases list.len(),
{
    if i > 0 {
        assert(list[0] != entry);
        let rest = list.drop_first();
        assert forall|j: int| 0 <= j < i - 1 implies #[trigger] rest[j] != entry by {
            assert(rest[j] == list[j + 1]);
        }
        lemma_first_place(rest, entry, i - 1);
    }
}

/// The configuration of a model, as a mathematical value.
pub struct ConfigView {
    pub path: Seq<char>,
    pub model: ModelView,
    pub motions: Seq<(Seq<char>, Seq<Seq<char>>)>,
    pub expressions: Seq<live2d::ExpressionView>,
}

/// The file of a motion, seen from the directory of a model.
pub open spec fn motion_file(motion: Seq<char>) -> Seq<char> {
    "../motion/"@ + motion + ".mtn"@
}

/// The file of an expression, seen from the directory of a model.
pub open spec fn expression_file(expression: Seq<char>) -> Seq<char> {
    "../expression/"@ + expression + ".exp.json"@
}

/// The motion groups of a configuration: one per motion, named like it, with
/// its one file.
pub open spec fn motion_groups(motion: Seq<Seq<char>>) -> Seq<(Seq<char>, Seq<Seq<char>>)> {
    motion.map_values(|m: Seq<char>| (m, seq![motion_file(m)]))
}

/// The expressions of a configuration.
pub open spec fn expression_list(expression: Seq<Seq<char>>) -> Seq<live2d::ExpressionView> {
    expression.map_values(
        |e: Seq<char>| live2d::ExpressionView { name: e, file: expression_file(e) },
    )
}

/// The configuration of the model at place `j` of a character.
pub open spec fn config_of(c: CharacterView, j: int) -> ConfigView {
    ConfigView {
        path: model_root(c.id, c.models[j].0) + "/model.json"@,
        model: c.models[j].1,
        motions: motion_groups(c.motion),
        expressions: expression_list(c.expression),
    }
}

/// The configurations of the models of a character, in the order in which the
/// models became known.
pub open spec fn character_configs(c: CharacterView) -> Seq<ConfigView> {
    Seq::new(c.models.len(), |j: int| config_of(c, j))
}

/// The configurations of the models of all characters, character by
/// character.
pub open spec fn all_configs(characters: Seq<CharacterView>) -> Seq<ConfigView>
    decreases characters.len(),
{
    if characters.len() == 0 {
        Seq::empty()
    } else {
        all_configs(characters.drop_last()) + character_configs(characters.last())
    }
}

/// The mathematical value of a configuration with its place.
pub open spec fn config_view(config: ModelConfig) -> ConfigView {
    ConfigView {
        path: config.path@,
        model: model_view(config.data.model),
        motions: config.data.motions@.map_values(
            |g: (String, Vec<Motion>)| (g.0@, g.1@.map_values(|m: Motion| m.file@)),
        ),
        expressions: config.data.expressions@.map_values(|e: Expression| e@),
    }
}

fn clone_model(model: &Model) -> (r: Model)
    ensures
        model_view(r) == model_view(*model),
{
    let mut textures: Vec<String> = Vec::new();
    let mut i: usize = 0;
    while i < model.textures.len()
        invariant
            i <= model.textures@.len(),
            textures@.len() == i,
            forall|j: int| 0 <= j < i ==> (#[trigger] textures@[j])@ == model.textures@[j]@,
        decreases model.textures@.len() - i,
    {
        textures.push(model.textures[i].clone());
        i += 1;
    }
    let r = Model { model: model.model.clone(), physics: model.physics.clone(), textures };
    assert(model_view(r).textures =~= model_view(*model).textures);
    r
}

fn motion_list(motion: &Vec<String>) -> (r: Vec<(String, Vec<Motion>)>)
    ensures
        r@.map_values(|g: (String, Vec<Motion>)| (g.0@, g.1@.map_values(|m: Motion| m.file@)))
            == motion_groups(motion@.map_values(|m: String| m@)),
{
    let mut list: Vec<(String, Vec<Motion>)> = Vec::new();
    let mut i: usize = 0;
    while i < motion.len()
        invariant
            i <= motion@.len(),
            list@.len() == i,
            forall|j: int|
                0 <= j < i ==> (#[trigger] list@[j]).0@ == motion@[j]@ && list@[j].1@.len() == 1
                    && list@[j].1@[0].file@ == motion_file(motion@[j]@),
        decreases motion@.len() - i,
    {
        let mut file = String::from_str("../motion/");
        file.append(motion[i].as_str());
        file.append(".mtn");
        let mut group: Vec<Motion> = Vec::new();
        group.push(Motion { file });
        list.push((motion[i].clone(), group));
        i += 1;
    }
    proof {
        let got = list@.map_values(
            |g: (String, Vec<Motion>)| (g.0@, g.1@.map_values(|m: Motion| m.file@)),
        );
        let want = motion_groups(motion@.map_values(|m: String| m@));
        assert(got.len() == want.len());
        assert forall|j: int| 0 <= j < got.len() implies got[j] == want[j] by {
            assert(list@[j].1@.map_values(|m: Motion| m.file@) =~= seq![
                motion_file(motion@[j]@),
            ]);
        }
        assert(got =~= want);
    }
    list
}

fn expressions_of(expression: &Vec<String>) -> (r: Vec<Expression>)
    ensures
        r@.map_values(|e: Expression| e@) == expression_list(
            expression@.map_values(|e: String| e@),
        ),
{
    let mut list: Vec<Expression> = Vec::new();
    let mut i: usize = 0;
    while i < expression.len()
        invariant
            i <= expression@.len(),
            list@.len() == i,
            forall|j: int|
                0 <= j < i ==> (#[trigger] list@[j])@ == (live2d::ExpressionView {
                    name: expression@[j]@,
                    file: expression_file(expression@[j]@),
                }),
        decreases expression@.len() - i,
    {
        let mut file = String::from_str("../expression/");
        file.append(expression[i].as_str());
        file.append(".exp.json");
        list.push(Expression { name: expression[i].clone(), file });
        i += 1;
    }
    assert(list@.map_values(|e: Expression| e@) =~= expression_list(
        expression@.map_values(|e: String| e@),
    ));
    list
}

impl DefaultResolver {
    /// The configurations of all models whose files are known, character by
    /// character, with the motions and the expressions that were seen of each
    /// character.
    pub fn get_model_config(&self) -> (configs: Vec<ModelConfig>)
        ensures
            configs@.map_values(|c: ModelConfig| config_view(c)) == all_configs(self@.characters),
            forall|i: int| 0 <= i < configs@.len() ==> (#[trigger] configs@[i]).root == Root::Figure,
    {
        let mut configs: Vec<ModelConfig> = Vec::new();
        let ghost characters = self@.characters;
        let mut i: usize = 0;
        proof {
            assert(characters.take(0) =~= Seq::empty());
            assert(configs@.map_values(|c: ModelConfig| config_view(c)) =~= Seq::empty());
        }
        while i < self.characters.len()
            invariant
                i <= self.characters@.len(),
                characters == self@.characters,
                configs@.map_values(|c: ModelConfig| config_view(c)) == all_configs(
                    characters.take(i as int),
                ),
                forall|k: int|
                    0 <= k < configs@.len() ==> (#[trigger] configs@[k]).root == Root::Figure,
            decreases self.characters@.len() - i,
        {
            let character = &self.characters[i];
            let ghost c = characters[i as int];
            let ghost before = configs@.map_values(|c: ModelConfig| config_view(c));
            proof {
                assert(c == character@);
                assert(characters.take(i + 1).drop_last() =~= characters.take(i as int));
            }
            let mut j: usize = 0;
            while j < character.models.len()
                invariant
                    j <= character.models@.len(),
                    c == character@,
                    configs@.map_values(|c: ModelConfig| config_view(c)) == before + Seq::new(
                        j as nat,
                        |k: int| config_of(c, k),
                    ),
                    forall|k: int|
                        0 <= k < configs@.len() ==> (#[trigger] configs@[k]).root == Root::Figure,
                decreases character.models@.len() - j,
            {
                let mut path = Self::get_model_root(character.id, character.models[j].0.as_str());
                path.append("/model.json");
                let ghost sofar = configs@.map_values(|c: ModelConfig| config_view(c));
                let config = ModelConfig {
                    root: Root::Figure,
                    path,
                    data: live2d::ModelConfig::new(
                        clone_model(&character.models[j].1),
                        motion_list(&character.motion),
                        expressions_of(&character.expression),
                    ),
                };
                proof {
                    assert(c.models[j as int] == (
                        character.models@[j as int].0@,
                        model_view(character.models@[j as int].1),
                    ));
                    assert(config_view(config) == config_of(c, j as int));
                }
                configs.push(config);
                proof {
                    assert(configs@.map_values(|c: ModelConfig| config_view(c)) =~= sofar.push(
                        config_of(c, j as int),
                    ));
                    assert(sofar.push(config_of(c, j as int)) =~= before + Seq::new(
                        (j + 1) as nat,
                        |k: int| config_of(c, k),
                    ));
                }
                j += 1;
            }
            proof {
                assert(c.models.len() == character.models@.len());
            }
            i += 1;
        }
        proof {
            assert(characters.take(characters.len() as int) =~= characters);
        }
        configs
    }
}

/// What a lookup of a plain resource found, as a mathematical value.
pub enum CommonFound {
    New(ResourceView),
    Existing(ResourceView),
    Failed(FailureView),
}

/// What a lookup of a part of a character model found, as a mathematical
/// value.
pub enum ModelFound {
    Normal(ResourceView),
    Bind { url: Seq<char>, character: u8, model: Seq<char> },
    Existing,
    Failed(FailureView),
}

/// The mathematical value of the outcome of a lookup of a plain resource.
pub open spec fn common_found(r: Result<ResolveCommonResult, Failure>) -> CommonFound {
    match r {
        Ok(ResolveCommonResult::New(x)) => CommonFound::New(x@),
        Ok(ResolveCommonResult::Existing(x)) => CommonFound::Existing(x@),
        Err(e) => CommonFound::Failed(failure_view(e)),
    }
}

/// The mathematical value of the outcome of a lookup of a part of a model.
pub open spec fn model_found(r: Result<ResolveModelResult, Failure>) -> ModelFound {
    match r {
        Ok(ResolveModelResult::Normal(x)) => ModelFound::Normal(x@),
        Ok(ResolveModelResult::Bind { url, task }) => ModelFound::Bind {
            url: url@,
            character: task.character,
            model: task.model@,
        },
        Ok(ResolveModelResult::Existing) => ModelFound::Existing,
        Err(e) => ModelFound::Failed(failure_view(e)),
    }
}

/// What a lookup of `addr` in a table finds, where `url` is the address that
/// `addr` stands for if it is new. An address that is new and stands for
/// nothing is a failure of the use `kind`.
pub open spec fn common_outcome(
    table: Table,
    addr: AddressView,
    url: Option<Seq<char>>,
    root: Root,
    extend: Seq<char>,
    kind: ResolveCommonKind,
) -> CommonFound {
    match table_get(table, addr) {
        Some(resource) => CommonFound::Existing(resource),
        None => match url {
            Some(url) => CommonFound::New(created(root, url, extend)),
            None => CommonFound::Failed(FailureView::Common { kind, addr }),
        },
    }
}

impl ResolverView {
    /// What a lookup of `addr` for the use `kind` makes of what the resolver
    /// has seen, and what it finds. A still is looked up as a background, and
    /// fails as one.
    pub open spec fn common(self, kind: ResolveCommonKind, addr: AddressView) -> (
        ResolverView,
        CommonFound,
    ) {
        match kind {
            ResolveCommonKind::Bgm => (
                ResolverView {
                    bgm: common_lookup(self.bgm, addr, self.bgm_url(addr), Root::Bgm, ".mp3"@).0,
                    ..self
                },
                common_outcome(
                    self.bgm,
                    addr,
                    self.bgm_url(addr),
                    Root::Bgm,
                    ".mp3"@,
                    ResolveCommonKind::Bgm,
                ),
            ),
            ResolveCommonKind::Se => (
                ResolverView {
                    se: common_lookup(self.se, addr, self.se_url(addr), Root::Vocal, ".mp3"@).0,
                    ..self
                },
                common_outcome(
                    self.se,
                    addr,
                    self.se_url(addr),
                    Root::Vocal,
                    ".mp3"@,
                    ResolveCommonKind::Se,
                ),
            ),
            _ => (
                ResolverView {
                    background: common_lookup(
                        self.background,
                        addr,
                        self.image_url(addr),
                        Root::Background,
                        ".png"@,
                    ).0,
                    ..self
                },
                common_outcome(
                    self.background,
                    addr,
                    self.image_url(addr),
                    Root::Background,
                    ".png"@,
                    ResolveCommonKind::Background,
                ),
            ),
        }
    }

    /// What a lookup of the model `model` of `character` makes of what the
    /// resolver has seen, the path of the configuration of the model that is
    /// meant, and what the lookup finds: nothing new where the model is known
    /// or its manifest on the way, else the manifest to fetch.
    pub open spec fn model(self, character: u8, model: Seq<char>) -> (
        ResolverView,
        Seq<char>,
        ModelFound,
    ) {
        let name = self.meant(character, model);
        let seen = self.worn(character, model).with_character(character);
        let path = model_root(character, name) + "model.json"@;
        if self.has_model(character, name) {
            (seen, path, ModelFound::Existing)
        } else {
            (
                seen.pended(character, name),
                path,
                ModelFound::Bind { url: self.manifest_url(name), character, model: name },
            )
        }
    }

    /// What a lookup of the motion `motion` of `character` makes of what the
    /// resolver has seen, and what it finds: nothing new where the motion was
    /// seen, else its file to fetch.
    pub open spec fn motion(self, character: u8, motion: Seq<char>) -> (ResolverView, ModelFound) {
        if self.has_motion(character, motion) {
            (self, ModelFound::Existing)
        } else {
            (
                self.with_character(character).with_motion(character, motion),
                ModelFound::Normal(
                    ResourceView {
                        root: Root::Figure,
                        url: Some(self.general_url(character, motion + ".mtn"@)),
                        path: motion_path(character, motion),
                    },
                ),
            )
        }
    }

    /// What a lookup of the expression `expression` of `character` makes of
    /// what the resolver has seen, and what it finds: nothing new where the
    /// expression was seen, else its file to fetch.
    pub open spec fn expression(self, character: u8, expression: Seq<char>) -> (
        ResolverView,
        ModelFound,
    ) {
        if self.has_expression(character, expression) {
            (self, ModelFound::Existing)
        } else {
            (
                self.with_character(character).with_expression(character, expression),
                ModelFound::Normal(
                    ResourceView {
                        root: Root::Figure,
                        url: Some(self.general_url(character, expression + ".exp.json"@)),
                        path: expression_path(character, expression),
                    },
                ),
            )
        }
    }
}

/// A resolver of the streaming pipeline, as the stages that use it see it.
///
/// What a resolver finds is a matter of what it has seen, its state, and of
/// what it is asked, and of nothing else: each kind of lookup is a function
/// from the state and the question to the state afterwards and the answer.
/// Which function, each resolver says for itself.
pub trait Resolver {
    /// What a resolver has seen, as a mathematical value.
    type V;

    /// What the resolver has seen.
    spec fn state(&self) -> Self::V;

    /// Whether the resolver is in a state to resolve: one that was made by
    /// its constructor and has only been used through its methods is.
    spec fn ready(&self) -> bool;

    /// The state after a lookup of `addr` for the use `kind`, and what the
    /// lookup finds.
    spec fn common(state: Self::V, kind: ResolveCommonKind, addr: AddressView) -> (
        Self::V,
        CommonFound,
    );

    /// The state after a lookup of the model `model` of `character`, the path
    /// of the configuration of the model, and what the lookup finds.
    spec fn model(state: Self::V, character: u8, model: Seq<char>) -> (
        Self::V,
        Seq<char>,
        ModelFound,
    );

    /// The state after a lookup of a motion, and what the lookup finds.
    spec fn motion(state: Self::V, character: u8, motion: Seq<char>) -> (Self::V, ModelFound);

    /// The state after a lookup of an expression, and what the lookup finds.
    spec fn expression(state: Self::V, character: u8, expression: Seq<char>) -> (
        Self::V,
        ModelFound,
    );

    /// The configurations of the models that are known in a state.
    spec fn configs(state: Self::V) -> Seq<ConfigView>;

    /// The failures that wait to be taken in a state, oldest first.
    spec fn failures(state: Self::V) -> Seq<FailureView>;

    /// The state after the failures have been taken.
    spec fn forgiven(state: Self::V) -> Self::V;

    /// Resolves a piece of background music.
    fn resolve_bgm(&mut self, addr: &Address) -> (r: Result<ResolveCommonResult, Failure>)
        requires
            old(self).ready(),
        ensures
            final(self).ready(),
            (final(self).state(), common_found(r)) == Self::common(
                old(self).state(),
                ResolveCommonKind::Bgm,
                addr@,
            ),
    ;

    /// Resolves a sound effect.
    fn resolve_se(&mut self, addr: &Address) -> (r: Result<ResolveCommonResult, Failure>)
        requires
            old(self).ready(),
        ensures
            final(self).ready(),
            (final(self).state(), common_found(r)) == Self::common(
                old(self).state(),
                ResolveCommonKind::Se,
                addr@,
            ),
    ;

    /// Resolves a background.
    fn resolve_background(&mut self, addr: &Address) -> (r: Result<ResolveCommonResult, Failure>)
        requires
            old(self).ready(),
        ensures
            final(self).ready(),
            (final(self).state(), common_found(r)) == Self::common(
                old(self).state(),
                ResolveCommonKind::Background,
                addr@,
            ),
    ;

    /// Resolves the still of a card.
    fn resolve_cardstill(&mut self, addr: &Address) -> (r: Result<ResolveCommonResult, Failure>)
        requires
            old(self).ready(),
        ensures
            final(self).ready(),
            (final(self).state(), common_found(r)) == Self::common(
                old(self).state(),
                ResolveCommonKind::CardStill,
                addr@,
            ),
    ;

    /// Resolves the model of a character, and replaces its name by the path
    /// of its configuration.
    fn resolve_model(&mut self, character: u8, model: &mut String) -> (r: Result<
        ResolveModelResult,
        Failure,
    >)
        requires
            old(self).ready(),
        ensures
            final(self).ready(),
            (final(self).state(), final(model)@, model_found(r)) == Self::model(
                old(self).state(),
                character,
                old(model)@,
            ),
    ;

    /// Resolves a motion that all models of a character share.
    fn resolve_motion(&mut self, character: u8, motion: &str) -> (r: Result<
        ResolveModelResult,
        Failure,
    >)
        requires
            old(self).ready(),
        ensures
            final(self).ready(),
            (final(self).state(), model_found(r)) == Self::motion(
                old(self).state(),
                character,
                motion@,
            ),
    ;

    /// Resolves an expression that all models of a character share.
    fn resolve_expression(&mut self, character: u8, expression: &str) -> (r: Result<
        ResolveModelResult,
        Failure,
    >)
        requires
            old(self).ready(),
        ensures
            final(self).ready(),
            (final(self).state(), model_found(r)) == Self::expression(
                old(self).state(),
                character,
                expression@,
            ),
    ;

    /// The configurations of the models that are known. To be asked for when
    /// every manifest has been taken in, or models are missing.
    fn get_model_config(&self) -> (configs: Vec<ModelConfig>)
        ensures
            configs@.map_values(|c: ModelConfig| config_view(c)) == Self::configs(self.state()),
    ;

    /// Hands out the failures that manifests have caused, and forgets them.
    fn take_error(&mut self) -> (errors: Vec<ResolveError>)
        requires
            old(self).ready(),
        ensures
            final(self).ready(),
            errors@.map_values(|e: ResolveError| resolve_error_view(e)) == Self::failures(
                old(self).state(),
            ),
            final(self).state() == Self::forgiven(old(self).state()),
    ;
}

impl Resolver for DefaultResolver {
    type V = ResolverView;

    open spec fn state(&self) -> ResolverView {
        self@
    }

    open spec fn ready(&self) -> bool {
        self@.wf()
    }

    open spec fn common(state: ResolverView, kind: ResolveCommonKind, addr: AddressView) -> (
        ResolverView,
        CommonFound,
    ) {
        state.common(kind, addr)
    }

    open spec fn model(state: ResolverView, character: u8, model: Seq<char>) -> (
        ResolverView,
        Seq<char>,
        ModelFound,
    ) {
        state.model(character, model)
    }

    open spec fn motion(state: ResolverView, character: u8, motion: Seq<char>) -> (
        ResolverView,
        ModelFound,
    ) {
        state.motion(character, motion)
    }

    open spec fn expression(state: ResolverView, character: u8, expression: Seq<char>) -> (
        ResolverView,
        ModelFound,
    ) {
        state.expression(character, expression)
    }

    open spec fn configs(state: ResolverView) -> Seq<ConfigView> {
        all_configs(state.characters)
    }

    open spec fn failures(state: ResolverView) -> Seq<FailureView> {
        state.errors
    }

    open spec fn forgiven(state: ResolverView) -> ResolverView {
        ResolverView { errors: Seq::empty(), ..state }
    }

    fn resolve_bgm(&mut self, addr: &Address) -> (r: Result<ResolveCommonResult, Failure>) {
        DefaultResolver::resolve_bgm(self, addr)
    }

    fn resolve_se(&mut self, addr: &Address) -> (r: Result<ResolveCommonResult, Failure>) {
        DefaultResolver::resolve_se(self, addr)
    }

    fn resolve_background(&mut self, addr: &Address) -> (r: Result<ResolveCommonResult, Failure>) {
        DefaultResolver::resolve_background(self, addr)
    }

    fn resolve_cardstill(&mut self, addr: &Address) -> (r: Result<ResolveCommonResult, Failure>) {
        DefaultResolver::resolve_cardstill(self, addr)
    }

    fn resolve_model(&mut self, character: u8, model: &mut String) -> (r: Result<
        ResolveModelResult,
        Failure,
    >) {
        DefaultResolver::resolve_model(self, character, model)
    }

    fn resolve_motion(&mut self, character: u8, motion: &str) -> (r: Result<
        ResolveModelResult,
        Failure,
    >) {
        DefaultResolver::resolve_motion(self, character, motion)
    }

    fn resolve_expression(&mut self, character: u8, expression: &str) -> (r: Result<
        ResolveModelResult,
        Failure,
    >) {
        DefaultResolver::resolve_expression(self, character, expression)
    }

    fn get_model_config(&self) -> (configs: Vec<ModelConfig>) {
        DefaultResolver::get_model_config(self)
    }

    fn take_error(&mut self) -> (errors: Vec<ResolveError>) {
        DefaultResolver::take_error(self)
    }
}

} // verus!
