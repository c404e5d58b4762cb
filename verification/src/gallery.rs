//! The image gallery: the pictures on show, how an upload gets a name that
//! no picture has yet, and the shuffle.

use rand::distributions::Alphanumeric;
use rand::seq::SliceRandom;
use rand::Rng;
use vstd::prelude::*;

verus! {

/// `String::push` of the standard library puts one character at the end of
/// the string.
pub assume_specification[ String::push ](text: &mut String, c: char)
    ensures
        final(text)@ == old(text)@.push(c),
;

/// The part of `text` behind the last `mark`; all of it where it holds none.
pub open spec fn after_last(text: Seq<char>, mark: char) -> Seq<char>
    decreases text.len(),
{
    if text.len() == 0 || text.last() == mark {
        Seq::empty()
    } else {
        after_last(text.drop_last(), mark).push(text.last())
    }
}

/// The extension of a file name, dot included: what begins at the last dot,
/// if something follows that dot. A name without a dot, or with nothing
/// behind its last dot, has none.
pub open spec fn extension(name: Seq<char>) -> Seq<char> {
    let tail = after_last(name, '.');
    if tail.len() == 0 || tail.len() == name.len() {
        Seq::empty()
    } else {
        name.subrange(name.len() - tail.len() - 1, name.len() as int)
    }
}

/// `text` with `mark` put in `back` characters before its end, or at its
/// start where it is shorter than that.
pub open spec fn marked_text(text: Seq<char>, back: nat, mark: char) -> Seq<char> {
    let cut = if back <= text.len() {
        text.len() - back
    } else {
        0
    };
    text.subrange(0, cut).push(mark) + text.subrange(cut, text.len() as int)
}

proof fn lemma_after_last_split(text: Seq<char>, mark: char, i: int)
    requires
        0 <= i <= text.len(),
        forall|j: int| i <= j < text.len() ==> text[j] != mark,
    ensures
        after_last(text, mark) == after_last(text.subrange(0, i), mark) + text.subrange(
            i,
            text.len() as int,
        ),
    decreases text.len() - i,
{
    if i == text.len() {
        assert(text.subrange(0, i) =~= text);
        assert(after_last(text, mark) + Seq::<char>::empty() =~= after_last(text, mark));
        assert(text.subrange(i, text.len() as int) =~= Seq::<char>::empty());
    } else {
        let front = text.drop_last();
        assert forall|j: int| i <= j < front.len() implies front[j] != mark by {
            assert(front[j] == text[j]);
        }
        lemma_after_last_split(front, mark, i);
        assert(front.subrange(0, i) =~= text.subrange(0, i));
        assert(text.last() != mark);
        assert((after_last(front.subrange(0, i), mark) + front.subrange(
            i,
            front.len() as int,
        )).push(text.last()) =~= after_last(text.subrange(0, i), mark) + text.subrange(
            i,
            text.len() as int,
        ));
    }
}

/// What `after_last` yields is the end of the text, holds no mark, and is
/// preceded by one unless it is the whole text.
proof fn lemma_after_last_shape(text: Seq<char>, mark: char)
    ensures
        after_last(text, mark).len() <= text.len(),
        after_last(text, mark) == text.subrange(
            text.len() - after_last(text, mark).len(),
            text.len() as int,
        ),
        forall|j: int| text.len() - after_last(text, mark).len() <= j < text.len() ==> text[j] != mark,
        after_last(text, mark).len() < text.len() ==> text[text.len() - after_last(
            text,
            mark,
        ).len() - 1] == mark,
    decreases text.len(),
{
    if text.len() == 0 || text.last() == mark {
        assert(text.subrange(text.len() as int, text.len() as int) =~= Seq::<char>::empty());
    } else {
        let front = text.drop_last();
        lemma_after_last_shape(front, mark);
        let tail = after_last(front, mark);
        assert(tail.push(text.last()) =~= text.subrange(
            text.len() - tail.len() - 1,
            text.len() as int,
        ));
        assert forall|j: int| text.len() - tail.len() - 1 <= j < text.len() implies text[j]
            != mark by {
            if j < front.len() {
                assert(front[j] == text[j]);
            }
        }
        if tail.len() + 1 < text.len() {
            assert(front[front.len() - tail.len() - 1] == text[text.len() - tail.len() - 2]);
        }
    }
}

/// A mark that is no dot leaves the extension as it is, unless the name
/// ends in a dot: the mark goes in front of the extension, and a name
/// without one has none afterwards either.
pub proof fn law_mark_keeps_extension(name: Seq<char>, mark: char)
    requires
        mark != '.',
        name.len() > 0 ==> name.last() != '.',
    ensures
        extension(marked_text(name, extension(name).len(), mark)) == extension(name),
{
    let tail = after_last(name, '.');
    let ext = extension(name);
    let marked = marked_text(name, ext.len(), mark);
    lemma_after_last_shape(name, '.');
    if name.len() == 0 {
        assert(marked =~= seq![mark]);
        assert(after_last(marked.drop_last(), '.') =~= Seq::<char>::empty());
        assert(after_last(marked, '.') =~= seq![mark]);
    } else if tail.len() == name.len() {
        assert(marked =~= name.push(mark));
        assert(marked.drop_last() =~= name);
        assert(after_last(marked, '.') == tail.push(mark));
    } else {
        assert(tail.len() > 0);
        let cut = name.len() - tail.len() - 1;
        assert(ext =~= seq!['.'] + tail);
        assert(marked =~= name.subrange(0, cut).push(mark) + ext);
        let dot = cut + 2;
        assert forall|j: int| dot <= j < marked.len() implies marked[j] != '.' by {
            assert(marked[j] == name[j - 1]);
        }
        lemma_after_last_split(marked, '.', dot);
        let head = marked.subrange(0, dot);
        assert(head.last() == '.');
        assert(after_last(head, '.') =~= Seq::<char>::empty());
        assert(after_last(marked, '.') =~= marked.subrange(dot, marked.len() as int));
        assert(marked.subrange(dot, marked.len() as int) =~= tail);
        assert(marked.subrange(marked.len() - tail.len() - 1, marked.len() as int) =~= ext);
    }
}

/// Where the part behind the last `mark` begins.
fn tail_start(text: &str, mark: char) -> (start: usize)
    ensures
        start <= text@.len(),
        text@.subrange(start as int, text@.len() as int) == after_last(text@, mark),
        start > 0 ==> text@[start - 1] == mark,
        start == 0 ==> after_last(text@, mark) == text@,
{
    let n = text.unicode_len();
    let mut i = n;
    while i > 0 && text.get_char(i - 1) != mark
        invariant
            i <= n,
            n == text@.len(),
            forall|j: int| i <= j < n ==> text@[j] != mark,
        decreases i,
    {
        i -= 1;
    }
    proof {
        lemma_after_last_split(text@, mark, i as int);
        let head = text@.subrange(0, i as int);
        if i > 0 {
            assert(head.last() == text@[i - 1]);
        }
        assert(after_last(head, mark) =~= Seq::<char>::empty());
        assert(Seq::<char>::empty() + text@.subrange(i as int, n as int) =~= text@.subrange(
            i as int,
            n as int,
        ));
        if i == 0 {
            assert(text@.subrange(0, n as int) =~= text@);
        }
    }
    i
}

/// A picture of the gallery: the address under which it is served, and its
/// file name.
#[derive(Debug, Clone, PartialEq, Eq)]
pub struct Image {
    pub path: String,
    pub name: String,
}

/// A picture as plain text.
pub struct ImageModel {
    pub path: Seq<char>,
    pub name: Seq<char>,
}

impl View for Image {
    type V = ImageModel;

    open spec fn view(&self) -> ImageModel {
        ImageModel { path: self.path@, name: self.name@ }
    }
}

impl ImageModel {
    /// The picture renamed with `mark`: the mark is put in front of the
    /// name's extension, in the name and at the same distance from the end
    /// in the path.
    pub open spec fn marked(self, mark: char) -> ImageModel {
        let back = extension(self.name).len();
        ImageModel {
            path: marked_text(self.path, back, mark),
            name: marked_text(self.name, back, mark),
        }
    }

    /// The picture renamed with each of `marks` in turn.
    pub open spec fn marked_all(self, marks: Seq<char>) -> ImageModel
        decreases marks.len(),
    {
        if marks.len() == 0 {
            self
        } else {
            self.marked_all(marks.drop_last()).marked(marks.last())
        }
    }
}

/// Whether `path` can be the path of a picture on disk: it is not empty and
/// its first character takes one byte, so that it can be cut off.
pub open spec fn strippable(path: Seq<char>) -> bool {
    path.len() > 0 && (path[0] as u32) < 0x80
}

/// Whether `path` can be the path of a picture on disk.
pub fn is_strippable(path: &str) -> (r: bool)
    ensures
        r == strippable(path@),
{
    path.unicode_len() > 0 && (path.get_char(0) as u32) < 0x80
}

/// `text` with `mark` put in `back` characters before its end.
fn mark_text(text: &str, back: usize, mark: char) -> (r: String)
    ensures
        r@ == marked_text(text@, back as nat, mark),
{
    let n = text.unicode_len();
    let cut = if back <= n {
        n - back
    } else {
        0
    };
    let mut r = String::from_str(text.substring_char(0, cut));
    r.push(mark);
    r.append(text.substring_char(cut, n));
    r
}

impl Image {
    /// The picture stored at `path`, a path that begins with the dot of the
    /// working directory. Its name is what follows the last slash, and the
    /// address under which it is served is the path without its first
    /// character.
    pub fn new(path: &str) -> (img: Image)
        requires
            strippable(path@),
        ensures
            img@.name == after_last(path@, '/'),
            img@.path == path@.subrange(1, path@.len() as int),
    {
        let n = path.unicode_len();
        let start = tail_start(path, '/');
        Image {
            name: String::from_str(path.substring_char(start, n)),
            path: String::from_str(path.substring_char(1, n)),
        }
    }

    /// How many characters the extension of the name has, dot included.
    pub fn extension_len(&self) -> (len: usize)
        ensures
            len == extension(self.name@).len(),
    {
        let n = self.name.as_str().unicode_len();
        let start = tail_start(self.name.as_str(), '.');
        if start == 0 || start == n {
            proof {
                if start == 0 {
                    assert(after_last(self.name@, '.').len() == self.name@.len());
                } else {
                    assert(after_last(self.name@, '.').len() == 0);
                }
            }
            0
        } else {
            n - start + 1
        }
    }

    /// The picture under a new name: `mark` is put in front of the
    /// extension, in the name and in the path alike.
    pub fn marked(&self, mark: char) -> (img: Image)
        ensures
            img@ == self@.marked(mark),
    {
        let back = self.extension_len();
        Image {
            path: mark_text(self.path.as_str(), back, mark),
            name: mark_text(self.name.as_str(), back, mark),
        }
    }

    /// Where the picture lies on disk, seen from the working directory: a
    /// dot and the address under which it is served.
    pub fn file_path(&self) -> (r: String)
        ensures
            r@ == "."@ + self@.path,
    {
        String::from_str(".").concat(self.path.as_str())
    }

    /// Whether two pictures have the same path and the same name.
    pub fn same_as(&self, other: &Image) -> (r: bool)
        ensures
            r == (self@ == other@),
    {
        self.path == other.path && self.name == other.name
    }
}

/// Whether `c` is an ASCII letter or digit.
pub open spec fn is_alphanumeric(c: char) -> bool {
    ('a' <= c <= 'z') || ('A' <= c <= 'Z') || ('0' <= c <= '9')
}

/// Draws from `rand::thread_rng()` with `Rng::sample` over the distribution
/// `Alphanumeric` of the `rand` crate, which yields ASCII letters and digits.
#[verifier::external_body]
fn random_alphanumeric() -> (c: char)
    ensures
        is_alphanumeric(c),
{
    char::from(rand::thread_rng().sample(Alphanumeric))
}

/// Calls `SliceRandom::shuffle` of the `rand` crate with `rand::thread_rng()`.
/// It swaps elements of the slice among themselves: the same pictures are
/// there afterwards, each as often as before, in some order.
#[verifier::external_body]
fn shuffle_images(images: &mut Vec<Image>)
    ensures
        final(images)@.to_multiset() == old(images)@.to_multiset(),
{
    images.shuffle(&mut rand::thread_rng());
}

/// The plain-text forms of a run of pictures.
pub open spec fn image_models(images: Seq<Image>) -> Seq<ImageModel> {
    images.map_values(|i: Image| i@)
}

/// The pictures on show, in the directory where they lie.
#[derive(Debug, Clone)]
pub struct ImageGallery {
    pub path: String,
    pub images: Vec<Image>,
}

/// Why an upload was not taken.
#[derive(Clone, Copy, Debug, PartialEq, Eq, Structural)]
pub enum UploadError {
    /// The request carried no file, or an empty one.
    Empty,
}

impl UploadError {
    /// The status of the response that turns the upload away.
    pub fn status_code(&self) -> (code: u16)
        ensures
            code == 400,
    {
        400
    }

    /// The text of the response that turns the upload away.
    pub fn message(&self) -> (text: String)
        ensures
            text@ == "You have done stupiding"@,
    {
        String::from_str("You have done stupiding")
    }
}

/// The picture that an upload named `filename` starts out as, before its
/// name is held against the gallery.
pub open spec fn upload_image(filename: Seq<char>) -> ImageModel {
    ImageModel {
        path: "/static/gallery/"@ + filename,
        name: after_last("./static/gallery/"@ + filename, '/'),
    }
}

/// The length of the longest name among `images`.
pub open spec fn longest_name(images: Seq<ImageModel>) -> nat
    decreases images.len(),
{
    if images.len() == 0 {
        0
    } else {
        let rest = longest_name(images.drop_last());
        if images.last().name.len() > rest {
            images.last().name.len()
        } else {
            rest
        }
    }
}

proof fn lemma_longest_name(images: Seq<ImageModel>, image: ImageModel)
    requires
        images.contains(image),
    ensures
        image.name.len() <= longest_name(images),
    decreases images.len(),
{
    let i = choose|i: int| 0 <= i < images.len() && images[i] == image;
    if i < images.len() - 1 {
        assert(images.drop_last()[i] == image);
        lemma_longest_name(images.drop_last(), image);
    }
}

/// Whether `end` is `start` renamed with the letters and digits `marks`, one
/// after the other, where every name on the way was taken in `images` and
/// the last one is free.
pub open spec fn renamed_until_free(
    images: Seq<ImageModel>,
    start: ImageModel,
    marks: Seq<char>,
    end: ImageModel,
) -> bool {
    &&& forall|i: int| 0 <= i < marks.len() ==> is_alphanumeric(#[trigger] marks[i])
    &&& forall|k: int|
        0 <= k < marks.len() ==> images.contains(#[trigger] start.marked_all(marks.take(k)))
    &&& end == start.marked_all(marks)
    &&& !images.contains(end)
}

/// A picture whose path and name are free keeps them: it is renamed only
/// while the gallery shows a picture of the same path and name.
pub proof fn law_free_name_kept(
    images: Seq<ImageModel>,
    start: ImageModel,
    marks: Seq<char>,
    end: ImageModel,
)
    requires
        renamed_until_free(images, start, marks, end),
        !images.contains(start),
    ensures
        marks.len() == 0,
        end == start,
{
    if marks.len() > 0 {
        assert(marks.take(0) =~= Seq::<char>::empty());
        assert(images.contains(start.marked_all(marks.take(0))));
    }
}

/// Every renaming makes the name one character longer, and the path too.
pub proof fn law_marks_lengthen(image: ImageModel, marks: Seq<char>)
    ensures
        image.marked_all(marks).name.len() == image.name.len() + marks.len(),
        image.marked_all(marks).path.len() == image.path.len() + marks.len(),
    decreases marks.len(),
{
    if marks.len() > 0 {
        law_marks_lengthen(image, marks.drop_last());
    }
}

impl ImageGallery {
    /// Whether the gallery shows a picture of this path and name.
    pub open spec fn shows(&self, image: ImageModel) -> bool {
        image_models(self.images@).contains(image)
    }

    /// The gallery of the directory `path`, with one picture for each of the
    /// files found in it, in their order.
    pub fn new(path: &str, files: &[String]) -> (gallery: ImageGallery)
        requires
            forall|i: int| 0 <= i < files@.len() ==> strippable(#[trigger] files@[i]@),
        ensures
            gallery.path@ == path@,
            gallery.images@.len() == files@.len(),
            forall|i: int|
                0 <= i < files@.len() ==> {
                    &&& (#[trigger] gallery.images@[i])@.name == after_last(files@[i]@, '/')
                    &&& gallery.images@[i]@.path == files@[i]@.subrange(
                        1,
                        files@[i]@.len() as int,
                    )
                },
    {
        let mut images: Vec<Image> = Vec::new();
        let mut k: usize = 0;
        while k < files.len()
            invariant
                k <= files.len(),
                images.len() == k,
                forall|i: int| 0 <= i < files@.len() ==> strippable(#[trigger] files@[i]@),
                forall|i: int|
                    0 <= i < k ==> {
                        &&& (#[trigger] images@[i])@.name == after_last(files@[i]@, '/')
                        &&& images@[i]@.path == files@[i]@.subrange(1, files@[i]@.len() as int)
                    },
            decreases files.len() - k,
        {
            assert(strippable(files@[k as int]@));
            images.push(Image::new(files[k].as_str()));
            k += 1;
        }
        ImageGallery { path: String::from_str(path), images }
    }

    /// Puts a picture at the end of the gallery.
    pub fn add_image(&mut self, img: Image)
        ensures
            final(self).images@ == old(self).images@.push(img),
            final(self).path == old(self).path,
    {
        self.images.push(img)
    }

    /// Puts the pictures in a random order. The same pictures are on show
    /// afterwards, each as often as before.
    pub fn shuffle(&mut self)
        ensures
            final(self).images@.to_multiset() == old(self).images@.to_multiset(),
            final(self).path == old(self).path,
    {
        shuffle_images(&mut self.images);
    }

    /// Whether the gallery shows a picture of the same path and name.
    pub fn contains(&self, img: &Image) -> (r: bool)
        ensures
            r == self.shows(img@),
    {
        let mut k: usize = 0;
        while k < self.images.len()
            invariant
                k <= self.images.len(),
                forall|i: int| 0 <= i < k ==> (#[trigger] self.images@[i])@ != img@,
            decreases self.images.len() - k,
        {
            if self.images[k].same_as(img) {
                proof {
                    let models = image_models(self.images@);
                    assert(models[k as int] == img@);
                }
                return true;
            }
            k += 1;
        }
        proof {
            let models = image_models(self.images@);
            assert forall|i: int| 0 <= i < models.len() implies models[i] != img@ by {
                assert(models[i] == self.images@[i]@);
            }
        }
        false
    }

    /// Renames a picture until the gallery shows none of its path and name.
    /// A picture that is not on show stays as it is. Otherwise a random
    /// letter or digit is put in front of its extension, again and again
    /// while the result is on show too.
    pub fn unused_name(&self, img: Image) -> (free: Image)
        ensures
            exists|marks: Seq<char>|
                renamed_until_free(image_models(self.images@), img@, marks, free@),
    {
        let ghost models = image_models(self.images@);
        let ghost start = img@;
        let ghost mut marks: Seq<char> = Seq::empty();
        let mut current = img;
        while self.contains(&current)
            invariant
                models == image_models(self.images@),
                current@ == start.marked_all(marks),
                forall|i: int| 0 <= i < marks.len() ==> is_alphanumeric(#[trigger] marks[i]),
                forall|k: int|
                    0 <= k < marks.len() ==> models.contains(
                        #[trigger] start.marked_all(marks.take(k)),
                    ),
            decreases longest_name(models) + 1 - current@.name.len(),
        {
            let c = random_alphanumeric();
            let next = current.marked(c);
            proof {
                lemma_longest_name(models, current@);
                let longer = marks.push(c);
                assert(longer.drop_last() =~= marks);
                assert forall|k: int| 0 <= k < longer.len() implies models.contains(
                    #[trigger] start.marked_all(longer.take(k)),
                ) by {
                    if k < marks.len() {
                        assert(longer.take(k) =~= marks.take(k));
                    } else {
                        assert(longer.take(k) =~= marks);
                    }
                }
                marks = longer;
            }
            current = next;
        }
        assert(renamed_until_free(models, start, marks, current@));
        current
    }

    /// Decides on an upload: a file without content is turned away; any
    /// other gets a place under the gallery's directory, `/static/gallery/`,
    /// under its own name if no picture has it yet and else under that name
    /// with random letters or digits in front of the extension. The
    /// picture is not on show yet: it is added once its file is written.
    pub fn admit_upload(&self, filename: &str, content: &[u8]) -> (r: Result<Image, UploadError>)
        ensures
            content@.len() == 0 <==> r == Err::<Image, UploadError>(UploadError::Empty),
            content@.len() > 0 <==> r is Ok,
            r is Ok ==> exists|marks: Seq<char>|
                renamed_until_free(
                    image_models(self.images@),
                    upload_image(filename@),
                    marks,
                    r->Ok_0@,
                ),
    {
        if content.len() == 0 {
            return Err(UploadError::Empty);
        }
        let path = String::from_str("./static/gallery/").concat(filename);
        proof {
            reveal_strlit("./static/gallery/");
            reveal_strlit("/static/gallery/");
            assert(path@.subrange(1, path@.len() as int) =~= "/static/gallery/"@ + filename@);
        }
        let img = Image::new(path.as_str());
        let ghost start = img@;
        assert(start == upload_image(filename@));
        let free = self.unused_name(img);
        assert(exists|marks: Seq<char>|
            renamed_until_free(
                image_models(self.images@),
                upload_image(filename@),
                marks,
                free@,
            ));
        let r = Ok(free);
        assert(r->Ok_0@ == free@);
        r
    }
}

/// The right to upload: what the `Authorization` header of a request must
/// be for its upload to be taken.
pub struct UploadGuard {
    expected: String,
}

impl UploadGuard {
    /// The value that the header must have.
    pub closed spec fn authorization(&self) -> Seq<char> {
        self.expected@
    }

    /// The guard for the given token: the header must be `Bearer`, a space
    /// and the token.
    pub fn new(token: &str) -> (guard: UploadGuard)
        ensures
            guard.authorization() == "Bearer "@ + token@,
    {
        UploadGuard { expected: String::from_str("Bearer ").concat(token) }
    }

    /// Whether a request with this `Authorization` header, if it has one,
    /// may upload.
    pub fn permits(&self, header: Option<&str>) -> (r: bool)
        ensures
            r == (header is Some && header->0@ == self.authorization()),
    {
        match header {
            Some(h) => String::from_str(h) == self.expected,
            None => false,
        }
    }
}

} // verus!
