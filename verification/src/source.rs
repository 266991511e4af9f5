//! Distribution sources: the primary project, the fallback, and a source that
//! a caller names as `owner/project`.

use vstd::prelude::*;
use crate::error::UpdateError;
use crate::text::chars_of;
use crate::text::same_text;
use crate::text::text_of;

verus! {

/// Owner of the project that is always asked for releases.
pub const PRIMARY_REPO_OWNER: &'static str = "openai";

/// Name of the project that is always asked for releases.
pub const PRIMARY_REPO_NAME: &'static str = "codex";

/// Owner of the project that is asked second where the caller names none.
pub const DEFAULT_REPO_OWNER: &'static str = "iainlowe";

/// Name of the project that is asked second where the caller names none.
pub const DEFAULT_REPO_NAME: &'static str = "codex";

/// `repo` is `owner`, a slash and `name`, both sides non-empty and free of
/// slashes.
pub open spec fn splits_into(repo: Seq<char>, owner: Seq<char>, name: Seq<char>) -> bool {
    &&& repo == owner + seq!['/'] + name
    &&& owner.len() > 0
    &&& name.len() > 0
    &&& !owner.contains('/')
    &&& !name.contains('/')
}

/// `repo` is written as `owner/project`.
pub open spec fn is_source_format(repo: Seq<char>) -> bool {
    exists|owner: Seq<char>, name: Seq<char>| splits_into(repo, owner, name)
}

/// `text` holds exactly one slash.
pub open spec fn has_one_slash(text: Seq<char>) -> bool {
    exists|at: int|
        0 <= at < text.len() && #[trigger] text[at] == '/' && forall|other: int|
            0 <= other < text.len() && other != at ==> text[other] != '/'
}

/// Where a text splits into owner and name, the slash between them is its
/// first and only one: it stands where `slash` does, given that `slash` is
/// the first.
proof fn lemma_split_at_first_slash(
    repo: Seq<char>,
    owner: Seq<char>,
    name: Seq<char>,
    slash: int,
)
    requires
        splits_into(repo, owner, name),
        0 <= slash < repo.len(),
        repo[slash] == '/',
        forall|k: int| 0 <= k < slash ==> repo[k] != '/',
    ensures
        owner == repo.subrange(0, slash),
        name == repo.subrange(slash + 1, repo.len() as int),
        forall|k: int| slash < k < repo.len() ==> repo[k] != '/',
{
}

/// Position of the first slash in `text`, if it holds one.
fn first_slash(text: &[char]) -> (found: Option<usize>)
    ensures
        match found {
            Some(at) => at < text.len() && text@[at as int] == '/' && forall|k: int|
                0 <= k < at ==> text@[k] != '/',
            None => !text@.contains('/'),
        },
{
    let mut at: usize = 0;
    while at < text.len()
        invariant
            at <= text.len(),
            forall|k: int| 0 <= k < at ==> text@[k] != '/',
        decreases text.len() - at,
    {
        if text[at] == '/' {
            return Some(at);
        }
        at = at + 1;
    }
    None
}

/// Whether `text` holds a slash at or after `from`.
fn has_slash_from(text: &[char], from: usize) -> (found: bool)
    requires
        from <= text.len(),
    ensures
        found == exists|k: int| from <= k < text.len() && text@[k] == '/',
{
    let mut at: usize = from;
    while at < text.len()
        invariant
            from <= at <= text.len(),
            forall|k: int| from <= k < at ==> text@[k] != '/',
        decreases text.len() - at,
    {
        if text[at] == '/' {
            return true;
        }
        at = at + 1;
    }
    false
}

/// Splits a source written as `owner/project` into its two sides. A text
/// that is not so written is refused: one without a slash, with more than
/// one, or with nothing on one side.
pub fn parse_repo_string(repo: &str) -> (parsed: Result<(&str, &str), UpdateError>)
    ensures
        parsed is Ok <==> is_source_format(repo@),
        parsed matches Ok(sides) ==> splits_into(repo@, sides.0@, sides.1@),
        parsed matches Err(e) ==> e == UpdateError::InvalidSourceFormat,
        forall|owner: Seq<char>, name: Seq<char>| #[trigger]
            splits_into(repo@, owner, name) ==> (parsed matches Ok(sides) && sides.0@ == owner
                && sides.1@ == name),
{
    let text = chars_of(repo);
    let len = text.len();
    let slash = match first_slash(text.as_slice()) {
        Some(at) => at,
        None => {
            proof {
                assert forall|owner: Seq<char>, name: Seq<char>|
                    !splits_into(repo@, owner, name) by {
                    if splits_into(repo@, owner, name) {
                        assert(repo@[owner.len() as int] == '/');
                    }
                }
            }
            return Err(UpdateError::InvalidSourceFormat);
        },
    };
    let more = has_slash_from(text.as_slice(), slash + 1);
    if more || slash == 0 || slash + 1 == len {
        return Err(UpdateError::InvalidSourceFormat);
    }
    let owner = repo.substring_char(0, slash);
    let name = repo.substring_char(slash + 1, len);
    proof {
        assert(repo@ =~= owner@ + seq!['/'] + name@);
        assert(splits_into(repo@, owner@, name@));
    }
    Ok((owner, name))
}

/// A distribution source: a project of an owner.
#[derive(Debug, Clone)]
pub struct Source {
    pub owner: String,
    pub name: String,
}

impl View for Source {
    type V = (Seq<char>, Seq<char>);

    /// Owner and name.
    open spec fn view(&self) -> (Seq<char>, Seq<char>) {
        (self.owner@, self.name@)
    }
}

/// How a source is written: owner, slash, name.
pub open spec fn label_of(source: (Seq<char>, Seq<char>)) -> Seq<char> {
    source.0 + seq!['/'] + source.1
}

/// The primary source.
pub open spec fn primary_source() -> (Seq<char>, Seq<char>) {
    (PRIMARY_REPO_OWNER@, PRIMARY_REPO_NAME@)
}

/// Where a slash stands in a text that holds one.
pub open spec fn slash_of(repo: Seq<char>) -> int {
    choose|at: int| 0 <= at < repo.len() && repo[at] == '/'
}

/// The two sides of a source written as `owner/project`: what stands before
/// its slash, and what stands behind it.
pub open spec fn sides_of(repo: Seq<char>) -> (Seq<char>, Seq<char>) {
    (repo.take(slash_of(repo)), repo.skip(slash_of(repo) + 1))
}

/// The sides of a source are the owner and the name that it splits into.
pub proof fn lemma_sides_of_split(repo: Seq<char>, owner: Seq<char>, name: Seq<char>)
    requires
        splits_into(repo, owner, name),
    ensures
        sides_of(repo) == (owner, name),
{
    lemma_split_has_one_slash(repo, owner, name);
}

/// The source that is asked second: the one that the caller names, else the
/// fallback. A name that is not written as `owner/project` is refused.
pub open spec fn source_choice(repo_override: Option<Seq<char>>) -> Result<
    (Seq<char>, Seq<char>),
    UpdateError,
> {
    match repo_override {
        None => Ok(fallback_source()),
        Some(repo) => if is_source_format(repo) {
            Ok(sides_of(repo))
        } else {
            Err(UpdateError::InvalidSourceFormat)
        },
    }
}

/// Where the address of a source's release list begins.
pub const RELEASES_URL_PREFIX: &'static str = "https://api.github.com/repos/";

/// Where the address of a source's release list ends.
pub const RELEASES_URL_SUFFIX: &'static str = "/releases";

/// The source that is asked second where the caller names none.
pub open spec fn fallback_source() -> (Seq<char>, Seq<char>) {
    (DEFAULT_REPO_OWNER@, DEFAULT_REPO_NAME@)
}

impl Source {
    /// The primary source.
    pub fn primary() -> (source: Source)
        ensures
            source@ == primary_source(),
    {
        Source { owner: PRIMARY_REPO_OWNER.to_owned(), name: PRIMARY_REPO_NAME.to_owned() }
    }

    /// The fallback source.
    pub fn fallback() -> (source: Source)
        ensures
            source@ == fallback_source(),
    {
        Source { owner: DEFAULT_REPO_OWNER.to_owned(), name: DEFAULT_REPO_NAME.to_owned() }
    }

    /// The source as `owner/project`.
    pub fn label(&self) -> (label: String)
        ensures
            label@ == label_of(self@),
    {
        let mut label = self.owner.clone();
        label.append("/");
        label.append(self.name.as_str());
        proof {
            reveal_strlit("/");
        }
        label
    }

    /// The address of the source's release list.
    pub fn releases_url(&self) -> (url: String)
        ensures
            url@ == RELEASES_URL_PREFIX@ + label_of(self@) + RELEASES_URL_SUFFIX@,
    {
        let mut url = RELEASES_URL_PREFIX.to_owned();
        url.append(self.label().as_str());
        url.append(RELEASES_URL_SUFFIX);
        url
    }

    /// Whether this is the primary source.
    pub fn is_primary(&self) -> (primary: bool)
        ensures
            primary == (self@ == primary_source()),
    {
        let owner = chars_of(self.owner.as_str());
        let name = chars_of(self.name.as_str());
        let primary_owner = chars_of(PRIMARY_REPO_OWNER);
        let primary_name = chars_of(PRIMARY_REPO_NAME);
        same_text(owner.as_slice(), primary_owner.as_slice()) && same_text(
            name.as_slice(),
            primary_name.as_slice(),
        )
    }
}

/// What a choice of source holds.
pub open spec fn choice_view(chosen: Result<Source, UpdateError>) -> Result<
    (Seq<char>, Seq<char>),
    UpdateError,
> {
    match chosen {
        Ok(source) => Ok(source@),
        Err(e) => Err(e),
    }
}

/// Decides which source is asked second.
pub fn secondary_source(repo_override: Option<&str>) -> (chosen: Result<Source, UpdateError>)
    ensures
        choice_view(chosen) == source_choice(text_of(repo_override)),
{
    match repo_override {
        None => Ok(Source::fallback()),
        Some(repo) => match parse_repo_string(repo) {
            Ok((owner, name)) => {
                proof {
                    lemma_sides_of_split(repo@, owner@, name@);
                }
                Ok(Source { owner: owner.to_owned(), name: name.to_owned() })
            },
            Err(e) => Err(e),
        },
    }
}

/// Where a text splits into owner and name, no slash stands in it but the
/// one between them.
proof fn lemma_split_has_one_slash(repo: Seq<char>, owner: Seq<char>, name: Seq<char>)
    requires
        splits_into(repo, owner, name),
    ensures
        repo[owner.len() as int] == '/',
        forall|k: int| 0 <= k < repo.len() && k != owner.len() ==> repo[k] != '/',
{
    let slash = owner.len() as int;
    lemma_split_at_first_slash(repo, owner, name, slash);
}

/// A text that does not hold exactly one slash is no source.
pub proof fn lemma_source_needs_one_slash(repo: Seq<char>)
    requires
        !has_one_slash(repo),
    ensures
        !is_source_format(repo),
{
    if is_source_format(repo) {
        let (owner, name) = choose|owner: Seq<char>, name: Seq<char>|
            splits_into(repo, owner, name);
        lemma_split_has_one_slash(repo, owner, name);
    }
}

/// A text made of a non-empty owner, one slash and a non-empty name, neither
/// side holding a slash, is a source, and it splits into these two sides
/// only.
pub proof fn lemma_source_splits_one_way(owner: Seq<char>, name: Seq<char>)
    requires
        owner.len() > 0,
        name.len() > 0,
        !owner.contains('/'),
        !name.contains('/'),
    ensures
        is_source_format(owner + seq!['/'] + name),
        forall|other_owner: Seq<char>, other_name: Seq<char>| #[trigger]
            splits_into(owner + seq!['/'] + name, other_owner, other_name) ==> other_owner
                == owner && other_name == name,
{
    let repo = owner + seq!['/'] + name;
    let slash = owner.len() as int;
    assert(splits_into(repo, owner, name));
    lemma_split_has_one_slash(repo, owner, name);
    assert forall|other_owner: Seq<char>, other_name: Seq<char>| #[trigger]
        splits_into(repo, other_owner, other_name) implies other_owner == owner && other_name
        == name by {
        lemma_split_at_first_slash(repo, other_owner, other_name, slash);
        lemma_split_at_first_slash(repo, owner, name, slash);
    }
}

} // verus!
