//! The list of floppy images that a directory offers. The host reads the
//! directory and the files; what counts as an image, which image a name
//! stands for and the order in which the names are offered is decided here.
use vstd::prelude::*;
use vstd::string::StrSliceExecFns;

verus! {

#[derive(Clone, Copy, Debug, PartialEq, Eq, Structural)]
pub enum FloppyError {
    DirNotFound,
    FileReadError,
}

impl FloppyError {
    /// The message for the user.
    pub fn message(&self) -> (s: &'static str)
        ensures
            *self == FloppyError::DirNotFound ==> s@ == "Couldn't find the requested directory."@,
            *self == FloppyError::FileReadError ==> s@ == "A file read error occurred."@,
    {
        match self {
            FloppyError::DirNotFound => "Couldn't find the requested directory.",
            FloppyError::FileReadError => "A file read error occurred.",
        }
    }
}

/// An image file: where it lies and how large it is.
pub struct FloppyImage {
    path: String,
    size: u64,
}

impl FloppyImage {
    pub closed spec fn spec_path(&self) -> Seq<char> {
        self.path@
    }

    pub closed spec fn spec_size(&self) -> u64 {
        self.size
    }

    pub fn path(&self) -> (p: &String)
        ensures
            p@ == self.spec_path(),
    {
        &self.path
    }

    pub fn size(&self) -> (s: u64)
        ensures
            s == self.spec_size(),
    {
        self.size
    }
}

/// What the host found out about one entry of the directory.
pub struct DirEntryInfo {
    /// The file name, without the directory.
    pub name: String,
    /// The full path.
    pub path: String,
    /// The entry is a regular file.
    pub is_file: bool,
    /// The length of the file in bytes.
    pub size: u64,
}

/// The code of the character in upper case, for the letters a to z; the code
/// of any other character as it is.
pub open spec fn upper(c: char) -> u32 {
    if 'a' <= c && c <= 'z' {
        ((c as u32) - 32) as u32
    } else {
        c as u32
    }
}

/// A file name with the extension `img` or `ima`, in any mix of upper and
/// lower case. The extension is what follows the last dot, and a dot at the
/// start of the name begins no extension.
pub open spec fn is_image_name(s: Seq<char>) -> bool {
    &&& s.len() >= 5
    &&& s[s.len() - 4] == '.'
    &&& upper(s[s.len() - 3]) == 'I' as u32
    &&& upper(s[s.len() - 2]) == 'M' as u32
    &&& (upper(s[s.len() - 1]) == 'G' as u32 || upper(s[s.len() - 1]) == 'A' as u32)
}

/// An entry that is listed as an image: a regular file with an image name.
pub open spec fn is_image(e: DirEntryInfo) -> bool {
    e.is_file && is_image_name(e.name@)
}

/// Whether `a` comes before `b`, or is equal to it, when both are compared
/// character by character in upper case.
pub open spec fn name_le(a: Seq<char>, b: Seq<char>) -> bool
    decreases a.len(),
{
    if a.len() == 0 {
        true
    } else if b.len() == 0 {
        false
    } else if upper(a[0]) != upper(b[0]) {
        upper(a[0]) < upper(b[0])
    } else {
        name_le(a.subrange(1, a.len() as int), b.subrange(1, b.len() as int))
    }
}

/// Of two names one comes before the other, or they are equal in upper case.
pub proof fn lemma_name_le_total(a: Seq<char>, b: Seq<char>)
    ensures
        name_le(a, b) || name_le(b, a),
    decreases a.len(),
{
    if a.len() > 0 && b.len() > 0 && upper(a[0]) == upper(b[0]) {
        lemma_name_le_total(a.subrange(1, a.len() as int), b.subrange(1, b.len() as int));
    }
}

/// The order of names is transitive.
pub proof fn lemma_name_le_trans(a: Seq<char>, b: Seq<char>, c: Seq<char>)
    requires
        name_le(a, b),
        name_le(b, c),
    ensures
        name_le(a, c),
    decreases a.len(),
{
    if a.len() > 0 && b.len() > 0 && c.len() > 0 {
        if upper(a[0]) == upper(b[0]) && upper(b[0]) == upper(c[0]) {
            lemma_name_le_trans(
                a.subrange(1, a.len() as int),
                b.subrange(1, b.len() as int),
                c.subrange(1, c.len() as int),
            );
        }
    }
}

/// The names are in order.
pub open spec fn names_sorted(v: Seq<String>) -> bool {
    forall|i: int, j: int| 0 <= i < j < v.len() ==> name_le(#[trigger] v[i]@, #[trigger] v[j]@)
}

fn upper_char(c: char) -> (u: u32)
    ensures
        u == upper(c),
{
    if 'a' <= c && c <= 'z' {
        c as u32 - 32
    } else {
        c as u32
    }
}

/// Tests `is_image_name`.
pub fn has_image_extension(name: &String) -> (b: bool)
    ensures
        b == is_image_name(name@),
{
    let s = name.as_str();
    let n = s.unicode_len();
    if n < 5 {
        return false;
    }
    let dot = s.get_char(n - 4);
    let e0 = upper_char(s.get_char(n - 3));
    let e1 = upper_char(s.get_char(n - 2));
    let e2 = upper_char(s.get_char(n - 1));
    dot == '.' && e0 == 'I' as u32 && e1 == 'M' as u32 && (e2 == 'G' as u32 || e2 == 'A' as u32)
}

/// Tests `name_le`.
pub fn name_before_or_equal(a: &String, b: &String) -> (r: bool)
    ensures
        r == name_le(a@, b@),
{
    let sa = a.as_str();
    let sb = b.as_str();
    let na = sa.unicode_len();
    let nb = sb.unicode_len();
    let mut k: usize = 0;
    assert(a@.subrange(0, na as int) =~= a@);
    assert(b@.subrange(0, nb as int) =~= b@);
    while k < na && k < nb
        invariant
            k <= na,
            k <= nb,
            na == a@.len(),
            nb == b@.len(),
            sa@ == a@,
            sb@ == b@,
            name_le(a@.subrange(k as int, na as int), b@.subrange(k as int, nb as int))
                == name_le(a@, b@),
        decreases na - k,
    {
        let ca = upper_char(sa.get_char(k));
        let cb = upper_char(sb.get_char(k));
        proof {
            let ra = a@.subrange(k as int, na as int);
            let rb = b@.subrange(k as int, nb as int);
            assert(ra[0] == a@[k as int]);
            assert(rb[0] == b@[k as int]);
            assert(ra.subrange(1, ra.len() as int) =~= a@.subrange(k + 1, na as int));
            assert(rb.subrange(1, rb.len() as int) =~= b@.subrange(k + 1, nb as int));
        }
        if ca != cb {
            return ca < cb;
        }
        k = k + 1;
    }
    proof {
        let ra = a@.subrange(k as int, na as int);
        let rb = b@.subrange(k as int, nb as int);
        assert(ra.len() == na - k);
        assert(rb.len() == nb - k);
    }
    k >= na
}

/// The images that a directory listing offers, in the order of the listing.
/// Returns (name, path, size) of each.
pub open spec fn images_of(entries: Seq<DirEntryInfo>) -> Seq<(Seq<char>, Seq<char>, u64)>
    decreases entries.len(),
{
    if entries.len() == 0 {
        Seq::empty()
    } else {
        let rest = images_of(entries.subrange(0, entries.len() - 1));
        let e = entries[entries.len() - 1];
        if is_image(e) {
            rest.push((e.name@, e.path@, e.size))
        } else {
            rest
        }
    }
}

/// The index of the first of `names` that equals `name`, or the length of
/// `names` if there is none.
pub open spec fn index_of_name(names: Seq<Seq<char>>, name: Seq<char>) -> int
    decreases names.len(),
{
    if names.len() == 0 {
        0
    } else if names[0] == name {
        0
    } else {
        1 + index_of_name(names.subrange(1, names.len() as int), name)
    }
}

pub proof fn lemma_index_of_name(names: Seq<Seq<char>>, name: Seq<char>)
    ensures
        0 <= index_of_name(names, name) <= names.len(),
        index_of_name(names, name) < names.len() ==> names[index_of_name(names, name)] == name,
        forall|k: int| 0 <= k < index_of_name(names, name) ==> names[k] != name,
    decreases names.len(),
{
    if names.len() > 0 && names[0] != name {
        let rest = names.subrange(1, names.len() as int);
        lemma_index_of_name(rest, name);
        assert forall|k: int| 0 <= k < index_of_name(names, name) implies names[k] != name by {
            if k > 0 {
                assert(rest[k - 1] == names[k]);
            }
        }
    }
}

/// The images by name: each name stands once, where it was first seen, with
/// the image that was seen last under it.
pub struct ImageMap {
    pub names: Seq<Seq<char>>,
    pub images: Seq<(Seq<char>, u64)>,
}

impl ImageMap {
    pub open spec fn empty() -> ImageMap {
        ImageMap { names: Seq::empty(), images: Seq::empty() }
    }

    /// The map after an image was put under a name.
    pub open spec fn put(self, name: Seq<char>, path: Seq<char>, size: u64) -> ImageMap {
        let k = index_of_name(self.names, name);
        if k < self.names.len() {
            ImageMap { names: self.names, images: self.images.update(k, (path, size)) }
        } else {
            ImageMap { names: self.names.push(name), images: self.images.push((path, size)) }
        }
    }

    /// The map of the images of a listing.
    pub open spec fn of(images: Seq<(Seq<char>, Seq<char>, u64)>) -> ImageMap
        decreases images.len(),
    {
        if images.len() == 0 {
            ImageMap::empty()
        } else {
            let last = images[images.len() - 1];
            ImageMap::of(images.subrange(0, images.len() - 1)).put(last.0, last.1, last.2)
        }
    }
}

/// An image under its name.
pub struct NamedImage {
    pub name: String,
    pub image: FloppyImage,
}

pub struct FloppyManager {
    image_vec: Vec<FloppyImage>,
    image_map: Vec<NamedImage>,
}

impl FloppyManager {
    /// The images in the order of the last listing: (path, size) of each.
    pub closed spec fn images(&self) -> Seq<(Seq<char>, u64)> {
        Seq::new(
            self.image_vec@.len(),
            |i: int| (self.image_vec@[i].spec_path(), self.image_vec@[i].spec_size()),
        )
    }

    /// The images by name.
    pub closed spec fn by_name(&self) -> ImageMap {
        ImageMap {
            names: Seq::new(self.image_map@.len(), |i: int| self.image_map@[i].name@),
            images: Seq::new(
                self.image_map@.len(),
                |i: int|
                    (self.image_map@[i].image.spec_path(), self.image_map@[i].image.spec_size()),
            ),
        }
    }

    /// A manager that knows no image.
    pub fn new() -> (m: Self)
        ensures
            m.images().len() == 0,
            m.by_name() == ImageMap::empty(),
    {
        let m = Self { image_vec: Vec::new(), image_map: Vec::new() };
        assert(m.by_name().names =~= Seq::<Seq<char>>::empty());
        assert(m.by_name().images =~= Seq::<(Seq<char>, u64)>::empty());
        m
    }

    fn find(&self, name: &String) -> (k: usize)
        ensures
            k == index_of_name(self.by_name().names, name@),
            k <= self.image_map@.len(),
            self.by_name().names.len() == self.image_map@.len(),
            self.by_name().images.len() == self.image_map@.len(),
    {
        let n = self.image_map.len();
        let ghost names = self.by_name().names;
        let mut k: usize = 0;
        assert(names.subrange(0, n as int) =~= names);
        while k < n
            invariant
                k <= n,
                n == self.image_map@.len(),
                names == self.by_name().names,
                k + index_of_name(names.subrange(k as int, n as int), name@) == index_of_name(
                    names,
                    name@,
                ),
            decreases n - k,
        {
            proof {
                let rest = names.subrange(k as int, n as int);
                assert(rest[0] == names[k as int]);
                assert(rest.subrange(1, rest.len() as int) =~= names.subrange(k + 1, n as int));
            }
            if self.image_map[k].name.eq(name) {
                return k;
            }
            k = k + 1;
        }
        proof {
            assert(names.subrange(n as int, n as int).len() == 0);
        }
        k
    }

    fn put(&mut self, name: String, path: String, size: u64)
        ensures
            final(self).by_name() == old(self).by_name().put(name@, path@, size),
            final(self).images() == old(self).images(),
    {
        let k = self.find(&name);
        let ghost before = self.by_name();
        proof {
            lemma_index_of_name(before.names, name@);
        }
        if k < self.image_map.len() {
            self.image_map[k] = NamedImage {
                name: name,
                image: FloppyImage { path: path, size: size },
            };
            assert(self.by_name().names =~= before.names);
            assert(self.by_name().images =~= before.images.update(k as int, (path@, size)));
        } else {
            self.image_map.push(
                NamedImage { name: name, image: FloppyImage { path: path, size: size } },
            );
            assert(self.by_name().names =~= before.names.push(name@));
            assert(self.by_name().images =~= before.images.push((path@, size)));
        }
        assert(self.images() =~= old(self).images());
    }

    /// Rebuilds the lists from what the host read of a directory. `listing`
    /// is `None` where the directory could not be read: that is the error
    /// `DirNotFound`, and the lists stay. Otherwise every regular file named
    /// `*.img` or `*.ima` is listed, and the result is `Ok(true)`.
    pub fn scan_dir(&mut self, listing: Option<Vec<DirEntryInfo>>) -> (r: Result<
        bool,
        FloppyError,
    >)
        ensures
            listing is None ==> r == Err::<bool, FloppyError>(FloppyError::DirNotFound)
                && final(self).images() == old(self).images() && final(self).by_name() == old(
                self,
            ).by_name(),
            listing matches Some(entries) ==> {
                &&& r == Ok::<bool, FloppyError>(true)
                &&& final(self).images() == Seq::new(
                    images_of(entries@).len(),
                    |i: int| (images_of(entries@)[i].1, images_of(entries@)[i].2),
                )
                &&& final(self).by_name() == ImageMap::of(images_of(entries@))
            },
    {
        let entries = match listing {
            Some(e) => e,
            None => {
                return Err(FloppyError::DirNotFound);
            },
        };
        *self = FloppyManager::new();
        let n = entries.len();
        let mut k: usize = 0;
        while k < n
            invariant
                k <= n,
                n == entries@.len(),
                self.images() == Seq::new(
                    images_of(entries@.subrange(0, k as int)).len(),
                    |i: int|
                        (
                            images_of(entries@.subrange(0, k as int))[i].1,
                            images_of(entries@.subrange(0, k as int))[i].2,
                        ),
                ),
                self.by_name() == ImageMap::of(images_of(entries@.subrange(0, k as int))),
            decreases n - k,
        {
            let ghost prefix = entries@.subrange(0, k as int);
            let ghost next = entries@.subrange(0, k + 1);
            proof {
                assert(next.subrange(0, next.len() - 1) =~= prefix);
                assert(next[next.len() - 1] == entries@[k as int]);
            }
            let e = &entries[k];
            if e.is_file && has_image_extension(&e.name) {
                let ghost old_images = self.images();
                self.push_image(e.path.clone(), e.size);
                self.put(e.name.clone(), e.path.clone(), e.size);
                proof {
                    let imgs = images_of(next);
                    assert(imgs.subrange(0, imgs.len() - 1) =~= images_of(prefix));
                    assert(self.images() =~= Seq::new(
                        imgs.len(),
                        |i: int| (imgs[i].1, imgs[i].2),
                    ));
                }
            }
            k = k + 1;
        }
        proof {
            assert(entries@.subrange(0, n as int) =~= entries@);
        }
        Ok(true)
    }

    fn push_image(&mut self, path: String, size: u64)
        ensures
            final(self).images() == old(self).images().push((path@, size)),
            final(self).by_name() == old(self).by_name(),
    {
        self.image_vec.push(FloppyImage { path: path, size: size });
        assert(self.images() =~= old(self).images().push((path@, size)));
        assert(self.by_name().names =~= old(self).by_name().names);
        assert(self.by_name().images =~= old(self).by_name().images);
    }

    /// The names of the images, in order: compared in upper case. Names that
    /// are equal in upper case come in no particular order.
    pub fn get_floppy_names(&self) -> (v: Vec<String>)
        ensures
            names_sorted(v@),
            v@.map_values(|s: String| s@).to_multiset() == self.by_name().names.to_multiset(),
    {
        let mut v: Vec<String> = Vec::new();
        let n = self.image_map.len();
        let ghost names = self.by_name().names;
        let mut k: usize = 0;
        proof {
            assert(v@.map_values(|s: String| s@) =~= Seq::<Seq<char>>::empty());
            assert(names.subrange(0, 0) =~= Seq::<Seq<char>>::empty());
        }
        while k < n
            invariant
                k <= n,
                n == self.image_map@.len(),
                names == self.by_name().names,
                names_sorted(v@),
                v@.map_values(|s: String| s@).to_multiset() == names.subrange(
                    0,
                    k as int,
                ).to_multiset(),
            decreases n - k,
        {
            let name = self.image_map[k].name.clone();
            let ghost before = v@;
            let m = v.len();
            let mut p: usize = 0;
            while p < m && name_before_or_equal(&v[p], &name)
                invariant
                    p <= m,
                    m == v@.len(),
                    v@ == before,
                    forall|j: int| 0 <= j < p ==> name_le(#[trigger] v@[j]@, name@),
                decreases m - p,
            {
                p = p + 1;
            }
            proof {
                if p < m {
                    lemma_name_le_total(v@[p as int]@, name@);
                    assert forall|j: int| p <= j < m implies name_le(name@, #[trigger] v@[j]@) by {
                        if j > p {
                            lemma_name_le_trans(name@, v@[p as int]@, v@[j]@);
                        }
                    }
                }
            }
            v.insert(p, name);
            proof {
                let f = |s: String| s@;
                assert(v@.map_values(f) =~= before.map_values(f).insert(p as int, name@));
                vstd::seq_lib::to_multiset_insert(before.map_values(f), p as int, name@);
                let pre = names.subrange(0, k as int);
                let nxt = names.subrange(0, k + 1);
                assert(nxt =~= pre.push(names[k as int]));
                vstd::seq_lib::to_multiset_build(pre, names[k as int]);
                assert(names[k as int] == name@);
                assert forall|i: int, j: int| 0 <= i < j < v@.len() implies name_le(
                    #[trigger] v@[i]@,
                    #[trigger] v@[j]@,
                ) by {
                    if i < p && j > p {
                        assert(name_le(before[i]@, name@));
                        assert(name_le(name@, before[j - 1]@));
                        lemma_name_le_trans(before[i]@, name@, before[j - 1]@);
                    }
                }
            }
            k = k + 1;
        }
        proof {
            assert(names.subrange(0, n as int) =~= names);
        }
        v
    }

    /// The image that a name stands for.
    pub fn find_image(&self, name: &String) -> (r: Option<&FloppyImage>)
        ensures
            match r {
                Some(img) => {
                    let k = index_of_name(self.by_name().names, name@);
                    &&& k < self.by_name().names.len()
                    &&& self.by_name().images[k] == (img.spec_path(), img.spec_size())
                },
                None => index_of_name(self.by_name().names, name@) == self.by_name().names.len(),
            },
    {
        let k = self.find(name);
        if k < self.image_map.len() {
            Some(&self.image_map[k].image)
        } else {
            None
        }
    }

    /// The data of the image that `name` stands for. `file` is what the host
    /// read at the path of the image, or `None` where the read failed. A name
    /// that stands for no image gives no data and no error.
    pub fn load_floppy_data(&self, name: &String, file: Option<Vec<u8>>) -> (r: Result<
        Vec<u8>,
        FloppyError,
    >)
        ensures
            index_of_name(self.by_name().names, name@) == self.by_name().names.len() ==> r is Ok
                && r->Ok_0@.len() == 0,
            index_of_name(self.by_name().names, name@) < self.by_name().names.len() ==> match file {
                Some(data) => r == Ok::<Vec<u8>, FloppyError>(data),
                None => r == Err::<Vec<u8>, FloppyError>(FloppyError::FileReadError),
            },
    {
        let k = self.find(name);
        if k < self.image_map.len() {
            match file {
                Some(data) => Ok(data),
                None => Err(FloppyError::FileReadError),
            }
        } else {
            Ok(Vec::new())
        }
    }
}

} // verus!
