//! The client's logic: API addresses, the sign-in form, the composer, the
//! feed updates, time and comment labels, and the base64 forms of push keys.
use vstd::prelude::*;
use vstd::utf8::{encode_utf8, is_ascii_chars, is_ascii_chars_encode_utf8};
use crate::auth::{bearer_of, login_check, registration_check, utf8_len};
use crate::text::{
    contains,
    decimal,
    decimal_string,
    eq_str,
    has_infix,
    has_prefix,
    occurs_at,
    starts_with,
    trim,
    trim_seq,
};
use crate::http::{status_of, ApiError};
use crate::types::{NewPostRequest, Post};

verus! {

/// The API address used when none was set at build time.
pub open spec fn default_base() -> Seq<char> {
    "http://127.0.0.1:8787"@
}

/// The API address: the one set at build time, the local worker otherwise.
pub fn base(configured: Option<&'static str>) -> (b: &'static str)
    ensures
        b@ == match configured {
            Some(c) => c@,
            None => default_base(),
        },
{
    match configured {
        Some(c) => c,
        None => "http://127.0.0.1:8787",
    }
}

/// The full address of an API path.
pub fn api_url(base: &str, path: &str) -> (u: String)
    ensures
        u@ == base@ + path@,
{
    let mut u = String::from_str(base);
    u.append(path);
    u
}

/// The `Authorization` value that carries a session token.
pub fn bearer_header(token: &str) -> (h: String)
    ensures
        h@ == "Bearer "@ + token@,
{
    let mut h = String::from_str("Bearer ");
    h.append(token);
    h
}

/// The path of a post's comments.
pub fn comments_path(post_id: &str) -> (p: String)
    ensures
        p@ == "/api/posts/"@ + post_id@ + "/comments"@,
{
    let mut p = String::from_str("/api/posts/");
    p.append(post_id);
    p.append("/comments");
    p
}

/// The path of a post.
pub fn post_path(post_id: &str) -> (p: String)
    ensures
        p@ == "/api/posts/"@ + post_id@,
{
    let mut p = String::from_str("/api/posts/");
    p.append(post_id);
    p
}

/// The address of a media object, with the session token as the `t` query
/// parameter so that `<img>` and `<video>` elements can load it.
pub fn media_src(base: &str, key: &str, token: &str) -> (u: String)
    ensures
        u@ == base@ + "/api/media/"@ + key@ + "?t="@ + token@,
{
    let mut u = String::from_str(base);
    u.append("/api/media/");
    u.append(key);
    u.append("?t=");
    u.append(token);
    u
}

/// The error text of an answer that is not a success.
pub fn http_error(status: u16) -> (e: String)
    ensures
        e@ == "HTTP "@ + decimal(status as nat),
{
    let mut e = String::from_str("HTTP ");
    e.append(decimal_string(status as u64).as_str());
    e
}

/// The error text of a failed upload, with the worker's answer.
pub fn upload_error(status: u16, answer: &str) -> (e: String)
    ensures
        e@ == "upload failed (HTTP "@ + decimal(status as nat) + "): "@ + answer@,
{
    let mut e = String::from_str("upload failed (HTTP ");
    e.append(decimal_string(status as u64).as_str());
    e.append("): ");
    e.append(answer);
    e
}

/// The sign-in form may be sent: a non-blank name and a PIN of 4+ characters.
pub open spec fn form_fields_ok(name: Seq<char>, pin: Seq<char>) -> bool {
    trim_seq(name).len() > 0 && pin.len() >= 4
}

/// Why the sign-in form was not sent.
#[derive(Debug, Clone, Copy, PartialEq, Eq)]
pub enum FormError {
    /// "name and a 4+ character PIN required"
    NameAndPinRequired,
    /// "invite code required"
    InviteRequired,
}

/// The message shown for a form error.
pub fn form_error_message(e: FormError) -> (m: &'static str)
    ensures
        e == FormError::NameAndPinRequired ==> m@ == "name and a 4+ character PIN required"@,
        e == FormError::InviteRequired ==> m@ == "invite code required"@,
{
    match e {
        FormError::NameAndPinRequired => "name and a 4+ character PIN required",
        FormError::InviteRequired => "invite code required",
    }
}

/// Checks the sign-in form before it is sent: name and PIN always, and in
/// join mode a non-blank invite code.
pub fn check_form(name: &str, pin: &str, join_mode: bool, invite: &str) -> (r: Result<(), FormError>)
    ensures
        !form_fields_ok(name@, pin@) ==> r == Err::<(), FormError>(FormError::NameAndPinRequired),
        form_fields_ok(name@, pin@) && join_mode && trim_seq(invite@).len() == 0 ==> r == Err::<
            (),
            FormError,
        >(FormError::InviteRequired),
        form_fields_ok(name@, pin@) && !(join_mode && trim_seq(invite@).len() == 0) ==> r == Ok::<
            (),
            FormError,
        >(()),
{
    if trim(name).is_empty() || pin.unicode_len() < 4 {
        return Err(FormError::NameAndPinRequired);
    }
    if join_mode && trim(invite).is_empty() {
        return Err(FormError::InviteRequired);
    }
    Ok(())
}

/// The message shown when registration (join mode) or sign-in failed with
/// `error`: a refused invite (403) or refused credentials (401) get a plain
/// sentence, anything else is shown as it came.
pub open spec fn auth_failure_text(error: Seq<char>, join_mode: bool) -> Seq<char> {
    if join_mode && has_infix(error, "403"@) {
        "invite code is invalid or already used"@
    } else if !join_mode && has_infix(error, "401"@) {
        "name or PIN incorrect"@
    } else {
        error
    }
}

/// The message shown when registration or sign-in failed: a refused invite
/// (403) or refused credentials (401) get a plain sentence, anything else is
/// shown as it came.
pub fn auth_failure_message(error: &str, join_mode: bool) -> (m: String)
    ensures
        m@ == auth_failure_text(error@, join_mode),
{
    if join_mode {
        if contains(error, "403") {
            String::from_str("invite code is invalid or already used")
        } else {
            String::from_str(error)
        }
    } else {
        if contains(error, "401") {
            String::from_str("name or PIN incorrect")
        } else {
            String::from_str(error)
        }
    }
}

/// The worker's refusals reach the member as plain sentences: when joining,
/// a refused invite (the worker's 403, which the client reports as
/// `HTTP 403`) reads "invite code is invalid or already used"; when signing
/// in, refused credentials (401) read "name or PIN incorrect".
pub proof fn refusals_read_plainly()
    ensures
        auth_failure_text(
            "HTTP "@ + decimal(status_of(ApiError::InvalidInvite) as nat),
            true,
        ) == "invite code is invalid or already used"@,
        auth_failure_text(
            "HTTP "@ + decimal(status_of(ApiError::InvalidCredentials) as nat),
            false,
        ) == "name or PIN incorrect"@,
{
    reveal_strlit("HTTP ");
    reveal_strlit("403");
    reveal_strlit("401");
    let a = "HTTP "@ + decimal(403);
    assert(decimal(4) =~= seq!['4']);
    assert(decimal(40) =~= seq!['4', '0']);
    assert(decimal(403) =~= seq!['4', '0', '3']);
    assert(a.subrange(5, 8) =~= "403"@);
    assert(occurs_at(a, "403"@, 5));
    let b = "HTTP "@ + decimal(401);
    assert(decimal(401) =~= seq!['4', '0', '1']);
    assert(b.subrange(5, 8) =~= "401"@);
    assert(occurs_at(b, "401"@, 5));
}

/// The sign-in form: whether it registers with an invite (join mode),
/// whether a request is under way, and the error shown.
#[derive(Debug, Clone, PartialEq, Eq)]
pub struct LoginForm {
    pub join_mode: bool,
    pub busy: bool,
    pub error: Option<String>,
}

/// The request a submitted sign-in form sends.
#[derive(Debug, Clone, Copy, PartialEq, Eq)]
pub enum SignInCall {
    /// Register with the invite code.
    Register,
    /// Sign in with name and PIN.
    Login,
}

/// Switches between signing in and joining with an invite; the error is
/// cleared.
pub fn set_join_mode(form: &mut LoginForm, join_mode: bool)
    ensures
        final(form).join_mode == join_mode,
        final(form).busy == old(form).busy,
        final(form).error is None,
{
    form.join_mode = join_mode;
    form.error = None;
}

/// Submits the sign-in form. While a request is under way nothing happens.
/// A blank name or a PIN under 4 characters, and in join mode a blank
/// invite code, are refused with their message and leave the form idle.
/// Otherwise the error is cleared, the form becomes busy, and the request
/// to send is returned.
pub fn submit_login(form: &mut LoginForm, name: &str, pin: &str, invite: &str) -> (call: Option<
    SignInCall,
>)
    ensures
        old(form).busy ==> call is None && *final(form) == *old(form),
        !old(form).busy && !form_fields_ok(name@, pin@) ==> {
            &&& call is None
            &&& !final(form).busy
            &&& final(form).join_mode == old(form).join_mode
            &&& final(form).error matches Some(e) && e@ == "name and a 4+ character PIN required"@
        },
        !old(form).busy && form_fields_ok(name@, pin@) && old(form).join_mode && trim_seq(
            invite@,
        ).len() == 0 ==> {
            &&& call is None
            &&& !final(form).busy
            &&& final(form).join_mode == old(form).join_mode
            &&& final(form).error matches Some(e) && e@ == "invite code required"@
        },
        !old(form).busy && form_fields_ok(name@, pin@) && !(old(form).join_mode && trim_seq(
            invite@,
        ).len() == 0) ==> {
            &&& call == Some(
                if old(form).join_mode {
                    SignInCall::Register
                } else {
                    SignInCall::Login
                },
            )
            &&& final(form).busy
            &&& final(form).join_mode == old(form).join_mode
            &&& final(form).error is None
        },
{
    if form.busy {
        return None;
    }
    match check_form(name, pin, form.join_mode, invite) {
        Err(e) => {
            form.error = Some(String::from_str(form_error_message(e)));
            form.busy = false;
            None
        },
        Ok(()) => {
            form.error = None;
            form.busy = true;
            if form.join_mode {
                Some(SignInCall::Register)
            } else {
                Some(SignInCall::Login)
            }
        },
    }
}

/// The request sent by the form failed with `error`: the form is idle again
/// and shows the failure's message.
pub fn sign_in_failed(form: &mut LoginForm, error: &str)
    ensures
        !final(form).busy,
        final(form).join_mode == old(form).join_mode,
        final(form).error matches Some(m) && m@ == auth_failure_text(error@, old(form).join_mode),
{
    form.error = Some(auth_failure_message(error, form.join_mode));
    form.busy = false;
}

/// Most images one post holds.
pub const MAX_IMAGES: usize = 4;

/// Another image may be attached: fewer than four are pending and no video is.
pub fn can_add_image(pending_images: usize, has_video: bool) -> (b: bool)
    ensures
        b == (pending_images < MAX_IMAGES && !has_video),
{
    pending_images < MAX_IMAGES && !has_video
}

/// How many of the selected files are taken: as many as fit in the four slots.
pub fn images_to_take(pending_images: usize, selected: usize) -> (n: usize)
    ensures
        pending_images >= MAX_IMAGES ==> n == 0,
        pending_images < MAX_IMAGES ==> n == if selected < MAX_IMAGES - pending_images {
            selected
        } else {
            (MAX_IMAGES - pending_images) as usize
        },
{
    let slots = if pending_images >= MAX_IMAGES {
        0
    } else {
        MAX_IMAGES - pending_images
    };
    if selected < slots {
        selected
    } else {
        slots
    }
}

/// The composer may post: it is idle, the member is signed in (has a
/// session token), and there is a non-blank text, an image or a video.
pub fn can_post(
    busy: bool,
    compressing: bool,
    text: &str,
    has_images: bool,
    has_video: bool,
    has_token: bool,
) -> (b: bool)
    ensures
        b == (!busy && !compressing && has_token && (trim_seq(text@).len() > 0 || has_images
            || has_video)),
{
    if busy || compressing || !has_token {
        return false;
    }
    !trim(text).is_empty() || has_images || has_video
}

/// The extension of a compressed video: `mp4` for an MP4 blob, `webm` otherwise.
pub fn video_extension(mime: &str) -> (e: &'static str)
    ensures
        has_prefix(mime@, "video/mp4"@) ==> e@ == "mp4"@,
        !has_prefix(mime@, "video/mp4"@) ==> e@ == "webm"@,
{
    if starts_with(mime, "video/mp4") {
        "mp4"
    } else {
        "webm"
    }
}

/// The request for a new post: the text unless it is blank, and the video.
pub fn compose_request(text: String, video_key: Option<String>) -> (r: NewPostRequest)
    ensures
        trim_seq(text@).len() == 0 ==> r.body is None,
        trim_seq(text@).len() != 0 ==> r.body == Some(text),
        r.image_key is None,
        r.video_key == video_key,
{
    let blank = trim(text.as_str()).is_empty();
    NewPostRequest { body: if blank {
        None
    } else {
        Some(text)
    }, image_key: None, video_key }
}

/// Removes the item at `idx` when there is one.
pub fn remove_at<T>(items: &mut Vec<T>, idx: usize)
    ensures
        idx < old(items)@.len() ==> final(items)@ == old(items)@.remove(idx as int),
        idx >= old(items)@.len() ==> final(items)@ == old(items)@,
{
    if idx < items.len() {
        items.remove(idx);
    }
}

/// Puts a post just created at the top of the feed.
pub fn prepend_post(feed: &mut Vec<Post>, post: Post)
    ensures
        final(feed)@ == seq![post] + old(feed)@,
{
    feed.insert(0, post);
    assert(feed@ =~= seq![post] + old(feed)@);
}

/// The posts of `feed` whose id is not `id`, in order.
pub open spec fn without_post(feed: Seq<Post>, id: Seq<char>) -> Seq<Post>
    decreases feed.len(),
{
    if feed.len() == 0 {
        feed
    } else {
        let rest = without_post(feed.drop_last(), id);
        if feed.last().id@ == id {
            rest
        } else {
            rest.push(feed.last())
        }
    }
}

/// Drops a deleted post from the feed.
pub fn remove_post(feed: &mut Vec<Post>, id: &str)
    ensures
        final(feed)@ == without_post(old(feed)@, id@),
{
    let mut kept: Vec<Post> = Vec::new();
    let n = feed.len();
    let mut i: usize = 0;
    let ghost f = feed@;
    while feed.len() > 0
        invariant
            n == f.len(),
            i + feed@.len() == n,
            feed@ == f.skip(i as int),
            kept@ == without_post(f.take(i as int), id@),
        decreases feed@.len(),
    {
        let p = feed.remove(0);
        assert(f.take(i + 1).drop_last() =~= f.take(i as int));
        assert(f.take(i + 1).last() == p);
        if !crate::text::eq_str(p.id.as_str(), id) {
            kept.push(p);
        }
        i += 1;
        assert(feed@ =~= f.skip(i as int));
    }
    assert(f.take(n as int) =~= f);
    *feed = kept;
}

/// A removed post is no longer in the feed, and every other post still is.
pub proof fn removed_post_is_gone(feed: Seq<Post>, id: Seq<char>)
    ensures
        forall|i: int| 0 <= i < without_post(feed, id).len() ==> #[trigger] without_post(
            feed,
            id,
        )[i].id@ != id,
        forall|i: int|
            0 <= i < feed.len() && feed[i].id@ != id ==> without_post(feed, id).contains(
                #[trigger] feed[i],
            ),
    decreases feed.len(),
{
    if feed.len() > 0 {
        let rest = feed.drop_last();
        removed_post_is_gone(rest, id);
        assert forall|i: int| 0 <= i < feed.len() && feed[i].id@ != id implies without_post(
            feed,
            id,
        ).contains(#[trigger] feed[i]) by {
            if i < feed.len() - 1 {
                assert(rest[i] == feed[i]);
                let w = choose|w: int|
                    0 <= w < without_post(rest, id).len() && without_post(rest, id)[w] == rest[i];
                if feed.last().id@ != id {
                    assert(without_post(feed, id)[w] == feed[i]);
                }
            } else {
                assert(without_post(feed, id).last() == feed[i]);
            }
        }
    }
}

/// The comments section of a post card: whether it is open, whether its
/// comments were fetched, and how many the post has.
#[derive(Debug, Clone, Copy, PartialEq, Eq)]
pub struct CommentsPanel {
    pub open: bool,
    pub loaded: bool,
    pub count: u32,
}

/// Opens or closes the comments. Returns whether they must be fetched now:
/// when the section opens and no fetch has succeeded yet, so comments are
/// fetched once.
pub fn toggle_comments(p: &mut CommentsPanel) -> (fetch: bool)
    ensures
        final(p).open == !old(p).open,
        final(p).loaded == old(p).loaded,
        final(p).count == old(p).count,
        fetch == (!old(p).open && !old(p).loaded),
{
    let was_open = p.open;
    p.open = !was_open;
    !was_open && !p.loaded
}

/// The comments were fetched.
pub fn comments_fetched(p: &mut CommentsPanel)
    ensures
        *final(p) == (CommentsPanel { loaded: true, ..*old(p) }),
{
    p.loaded = true;
}

/// A comment was added: the post has one more.
pub fn comment_added(p: &mut CommentsPanel)
    requires
        old(p).count < u32::MAX,
    ensures
        *final(p) == (CommentsPanel { count: (old(p).count + 1) as u32, ..*old(p) }),
{
    p.count = p.count + 1;
}

/// A comment may be sent: none is being sent, its text is not blank, and
/// the member has a session token.
pub fn can_send_comment(busy: bool, text: &str, has_token: bool) -> (b: bool)
    ensures
        b == (!busy && trim_seq(text@).len() > 0 && has_token),
{
    !busy && !trim(text).is_empty() && has_token
}

/// A post may be deleted from its card: no deletion is under way and the
/// member has a session token.
pub fn can_delete_post(busy: bool, has_token: bool) -> (b: bool)
    ensures
        b == (!busy && has_token),
{
    !busy && has_token
}

/// The post is the signed-in member's own: a member is signed in and is its
/// author.
pub fn is_mine(user_id: Option<&str>, author_id: &str) -> (b: bool)
    ensures
        b == (user_id matches Some(u) && u@ == author_id@),
{
    match user_id {
        Some(u) => eq_str(u, author_id),
        None => false,
    }
}

/// The image a carousel over `count` images shows at position `idx`: the
/// last one when `idx` lies past the end.
pub fn carousel_shown(idx: usize, count: usize) -> (i: usize)
    requires
        count > 0,
    ensures
        i == if idx < count { idx } else { (count - 1) as usize },
{
    if idx < count {
        idx
    } else {
        count - 1
    }
}

/// The carousel position after the back button: one less, but not below 0.
pub fn carousel_back(idx: usize) -> (i: usize)
    ensures
        i == if idx > 0 { (idx - 1) as usize } else { 0 },
{
    if idx > 0 {
        idx - 1
    } else {
        0
    }
}

/// The carousel position after the forward button: one more while another
/// image follows.
pub fn carousel_forward(idx: usize, count: usize) -> (i: usize)
    ensures
        i == if idx + 1 < count { (idx + 1) as usize } else { idx },
{
    if idx < count && idx + 1 < count {
        idx + 1
    } else {
        idx
    }
}

/// The carousel's position label, `<position>/<count>`, counting from 1.
pub fn carousel_label(idx: usize, count: usize) -> (l: String)
    requires
        idx < count,
    ensures
        l@ == decimal((idx + 1) as nat) + "/"@ + decimal(count as nat),
{
    let mut l = decimal_string((idx + 1) as u64);
    l.append("/");
    l.append(decimal_string(count as u64).as_str());
    l
}

/// The step of posting at which an upload failed.
#[derive(Debug, Clone, Copy, PartialEq, Eq)]
pub enum UploadStep {
    /// Getting an upload URL.
    UploadUrl,
    /// Uploading an image.
    Image,
    /// Uploading the video.
    Video,
}

/// The composer's text for a failed upload step.
pub open spec fn upload_step_text(step: UploadStep, error: Seq<char>) -> Seq<char> {
    match step {
        UploadStep::UploadUrl => "upload URL failed: "@ + error,
        UploadStep::Image => "image upload failed: "@ + error,
        UploadStep::Video => "video upload failed: "@ + error,
    }
}

/// The message the composer shows when a step of posting failed.
pub fn upload_step_message(step: UploadStep, error: &str) -> (m: String)
    ensures
        m@ == upload_step_text(step, error@),
{
    let mut m = match step {
        UploadStep::UploadUrl => String::from_str("upload URL failed: "),
        UploadStep::Image => String::from_str("image upload failed: "),
        UploadStep::Video => String::from_str("video upload failed: "),
    };
    m.append(error);
    m
}

/// The label of the comments button.
pub open spec fn comments_label_spec(count: u32, open: bool) -> Seq<char> {
    if open {
        "hide comments"@
    } else if count == 0 {
        "comment"@
    } else if count == 1 {
        "1 comment"@
    } else {
        decimal(count as nat) + " comments"@
    }
}

/// An open comments section offers to hide them; a closed one shows how
/// many there are, the number followed by the noun (singular for one), or
/// the bare word when there are none.
pub proof fn comments_label_names_count(count: u32)
    ensures
        comments_label_spec(count, true) == "hide comments"@,
        count == 0 ==> comments_label_spec(count, false) == "comment"@,
        count == 1 ==> comments_label_spec(count, false) == decimal(count as nat) + " comment"@,
        count >= 2 ==> comments_label_spec(count, false) == decimal(count as nat) + " comments"@,
{
    if count == 1 {
        reveal_strlit("1 comment");
        reveal_strlit(" comment");
        assert(decimal(1) =~= seq!['1']);
        assert("1 comment"@ =~= decimal(1) + " comment"@);
    }
}

/// The label of the comments button: how many there are, or how to close them.
pub fn comments_label(count: u32, open: bool) -> (l: String)
    ensures
        l@ == comments_label_spec(count, open),
{
    if open {
        String::from_str("hide comments")
    } else if count == 0 {
        String::from_str("comment")
    } else if count == 1 {
        String::from_str("1 comment")
    } else {
        let mut l = decimal_string(count as u64);
        l.append(" comments");
        l
    }
}

/// The count shown beside a reaction: ` <count>` when positive, nothing at zero.
pub fn reaction_count_label(count: u32) -> (l: String)
    ensures
        count > 0 ==> l@ == " "@ + decimal(count as nat),
        count == 0 ==> l@ == Seq::<char>::empty(),
{
    if count > 0 {
        let mut l = String::from_str(" ");
        l.append(decimal_string(count as u64).as_str());
        l
    } else {
        String::new()
    }
}

/// How long ago a moment was, in words.
pub open spec fn age_label(age: int) -> Seq<char> {
    if age < 60 {
        "just now"@
    } else if age < 3600 {
        decimal((age / 60) as nat) + "m ago"@
    } else if age < 86400 {
        decimal((age / 3600) as nat) + "h ago"@
    } else {
        decimal((age / 86400) as nat) + "d ago"@
    }
}

/// The relative time counts whole units: under a minute it is "just now";
/// otherwise it shows the number of whole minutes, hours or days that have
/// passed (the largest unit that fits), so an age of `n` units and a bit
/// shows `n`.
pub proof fn time_label_counts_whole_units(age: int, n: nat)
    ensures
        0 <= age < 60 ==> age_label(age) == "just now"@,
        60 <= age < 3600 && n * 60 <= age < (n + 1) * 60 ==> age_label(age) == decimal(n)
            + "m ago"@,
        3600 <= age < 86400 && n * 3600 <= age < (n + 1) * 3600 ==> age_label(age) == decimal(n)
            + "h ago"@,
        86400 <= age && n * 86400 <= age < (n + 1) * 86400 ==> age_label(age) == decimal(n)
            + "d ago"@,
{
    if 60 <= age < 3600 && n * 60 <= age < (n + 1) * 60 {
        assert(age / 60 == n) by (nonlinear_arith)
            requires
                n * 60 <= age < (n + 1) * 60,
        ;
    }
    if 3600 <= age < 86400 && n * 3600 <= age < (n + 1) * 3600 {
        assert(age / 3600 == n) by (nonlinear_arith)
            requires
                n * 3600 <= age < (n + 1) * 3600,
        ;
    }
    if 86400 <= age && n * 86400 <= age < (n + 1) * 86400 {
        assert(age / 86400 == n) by (nonlinear_arith)
            requires
                n * 86400 <= age < (n + 1) * 86400,
        ;
    }
}

/// The relative time of a post or comment made at `ts`, seen at `now`
/// (seconds); a moment in the future counts as now.
pub fn format_time(ts: i64, now: i64) -> (l: String)
    requires
        i64::MIN <= now - ts <= i64::MAX,
    ensures
        l@ == age_label(if now - ts > 0 {
            now - ts
        } else {
            0
        }),
{
    let d = now - ts;
    let age: u64 = if d > 0 {
        d as u64
    } else {
        0
    };
    if age < 60 {
        String::from_str("just now")
    } else if age < 3600 {
        let mut l = decimal_string(age / 60);
        l.append("m ago");
        l
    } else if age < 86400 {
        let mut l = decimal_string(age / 3600);
        l.append("h ago");
        l
    } else {
        let mut l = decimal_string(age / 86400);
        l.append("d ago");
        l
    }
}

/// A character of standard base64 in its URL-safe form.
pub open spec fn url_char(c: char) -> char {
    if c == '+' {
        '-'
    } else if c == '/' {
        '_'
    } else {
        c
    }
}

/// A character of URL-safe base64 in its standard form.
pub open spec fn std_char(c: char) -> char {
    if c == '-' {
        '+'
    } else if c == '_' {
        '/'
    } else {
        c
    }
}

/// Number of `=` at the end of `s`.
pub open spec fn trailing_pad(s: Seq<char>) -> nat
    decreases s.len(),
{
    if s.len() > 0 && s.last() == '=' {
        1 + trailing_pad(s.drop_last())
    } else {
        0
    }
}

/// How many `=` make a text of `n` bytes a multiple of four long.
pub open spec fn pad_len(n: nat) -> nat {
    if n % 4 == 0 {
        0
    } else {
        (4 - n % 4) as nat
    }
}

/// URL-safe unpadded form of standard base64: `+` to `-`, `/` to `_`, and the
/// trailing `=` dropped.
pub open spec fn to_url_b64(s: Seq<char>) -> Seq<char> {
    s.take(s.len() - trailing_pad(s)).map_values(|c: char| url_char(c))
}

/// Standard padded form of URL-safe base64: `-` to `+`, `_` to `/`, and `=`
/// until the byte length is a multiple of four.
pub open spec fn to_std_b64(s: Seq<char>) -> Seq<char> {
    s.map_values(|c: char| std_char(c)) + Seq::new(pad_len(utf8_len(s)), |i: int| '=')
}

proof fn lemma_trailing_pad_bound(s: Seq<char>)
    ensures
        trailing_pad(s) <= s.len(),
        forall|i: int| s.len() - trailing_pad(s) <= i < s.len() ==> s[i] == '=',
        trailing_pad(s) < s.len() ==> s[s.len() - trailing_pad(s) - 1] != '=',
    decreases s.len(),
{
    if s.len() > 0 && s.last() == '=' {
        lemma_trailing_pad_bound(s.drop_last());
        assert forall|i: int| s.len() - trailing_pad(s) <= i < s.len() implies s[i] == '=' by {
            if i < s.len() - 1 {
                assert(s.drop_last()[i] == s[i]);
            }
        }
        if trailing_pad(s) < s.len() {
            assert(s.drop_last()[s.len() - trailing_pad(s) - 1] == s[s.len() - trailing_pad(s)
                - 1]);
        }
    }
}

/// Turns the URL-safe unpadded base64 of a VAPID key into standard padded
/// base64, the form `atob` reads.
pub fn b64url_to_b64(s: &str) -> (r: String)
    ensures
        r@ == to_std_b64(s@),
{
    let n = s.unicode_len();
    let mut r = String::new();
    let mut i: usize = 0;
    proof {
        reveal_strlit("+");
        reveal_strlit("/");
        reveal_strlit("=");
    }
    while i < n
        invariant
            i <= n,
            n == s@.len(),
            r@ == s@.take(i as int).map_values(|c: char| std_char(c)),
        decreases n - i,
    {
        proof {
            reveal_strlit("+");
            reveal_strlit("/");
        }
        let ghost prev = r@;
        let c = s.get_char(i);
        if c == '-' {
            r.append("+");
        } else if c == '_' {
            r.append("/");
        } else {
            let one = s.substring_char(i, i + 1);
            assert(one@ =~= seq![c]);
            r.append(one);
        }
        assert(r@ =~= prev.push(std_char(c)));
        assert(s@.take(i + 1) =~= s@.take(i as int).push(c));
        i += 1;
        assert(r@ =~= s@.take(i as int).map_values(|c: char| std_char(c)));
    }
    assert(s@.take(n as int) =~= s@);
    let len = s.as_bytes().len();
    let pad: usize = if len % 4 == 0 {
        0
    } else {
        4 - len % 4
    };
    let ghost body = r@;
    let mut k: usize = 0;
    while k < pad
        invariant
            k <= pad,
            pad == pad_len(utf8_len(s@)),
            r@ == body + Seq::new(k as nat, |i: int| '='),
        decreases pad - k,
    {
        proof {
            reveal_strlit("=");
        }
        r.append("=");
        k += 1;
        assert(r@ =~= body + Seq::new(k as nat, |i: int| '='));
    }
    r
}

/// Turns the standard base64 that `btoa` writes into the URL-safe unpadded
/// form that the worker stores.
pub fn b64_to_b64url(s: &str) -> (r: String)
    ensures
        r@ == to_url_b64(s@),
{
    let n = s.unicode_len();
    let mut j: usize = n;
    proof {
        lemma_trailing_pad_bound(s@);
    }
    assert(s@.take(n as int) =~= s@);
    while j > 0 && s.get_char(j - 1) == '='
        invariant
            j <= n,
            n == s@.len(),
            trailing_pad(s@) == (n - j) + trailing_pad(s@.take(j as int)),
        decreases j,
    {
        assert(s@.take(j as int).drop_last() =~= s@.take(j - 1));
        j -= 1;
    }
    assert(trailing_pad(s@.take(j as int)) == 0);
    let mut r = String::new();
    let mut i: usize = 0;
    while i < j
        invariant
            i <= j <= n,
            n == s@.len(),
            j == n - trailing_pad(s@),
            r@ == s@.take(i as int).map_values(|c: char| url_char(c)),
        decreases j - i,
    {
        proof {
            reveal_strlit("-");
            reveal_strlit("_");
        }
        let ghost prev = r@;
        let c = s.get_char(i);
        if c == '+' {
            r.append("-");
        } else if c == '/' {
            r.append("_");
        } else {
            let one = s.substring_char(i, i + 1);
            assert(one@ =~= seq![c]);
            r.append(one);
        }
        assert(r@ =~= prev.push(url_char(c)));
        assert(s@.take(i + 1) =~= s@.take(i as int).push(c));
        i += 1;
        assert(r@ =~= s@.take(i as int).map_values(|c: char| url_char(c)));
    }
    r
}

/// A character of the standard base64 alphabet.
pub open spec fn is_std_b64_char(c: char) -> bool {
    let v = c as u32;
    ||| 0x41 <= v <= 0x5a
    ||| 0x61 <= v <= 0x7a
    ||| 0x30 <= v <= 0x39
    ||| c == '+'
    ||| c == '/'
}

/// Standard padded base64 text: alphabet characters, then at most two `=`,
/// a multiple of four long.
pub open spec fn is_padded_b64(s: Seq<char>) -> bool {
    &&& s.len() % 4 == 0
    &&& trailing_pad(s) <= 2
    &&& forall|i: int| 0 <= i < s.len() - trailing_pad(s) ==> is_std_b64_char(#[trigger] s[i])
}

/// The push key that the client sends in URL-safe form turns back into the
/// very standard base64 that the browser gave.
pub proof fn url_b64_round_trip(s: Seq<char>)
    requires
        is_padded_b64(s),
    ensures
        to_std_b64(to_url_b64(s)) == s,
{
    lemma_trailing_pad_bound(s);
    let k = trailing_pad(s);
    let body = s.take(s.len() - k);
    let u = to_url_b64(s);
    assert(u.len() == s.len() - k);
    assert(is_ascii_chars(u)) by {
        assert forall|i: int| 0 <= i < u.len() implies '\0' <= #[trigger] u[i] <= '\u{7f}' by {
            assert(is_std_b64_char(s[i]));
        }
    }
    is_ascii_chars_encode_utf8(u);
    assert(utf8_len(u) == s.len() - k);
    assert(pad_len(utf8_len(u)) == k);
    assert(u.map_values(|c: char| std_char(c)) =~= body) by {
        assert forall|i: int| 0 <= i < body.len() implies u.map_values(|c: char| std_char(c))[i]
            == body[i] by {
            assert(is_std_b64_char(s[i]));
        }
    }
    assert(to_std_b64(u) =~= s);
}

/// The client sends a name and PIN exactly when the worker's sign-in check
/// accepts them, and every name and PIN the worker would register pass the
/// client's check.
pub proof fn sign_in_checks_agree(name: Seq<char>, pin: Seq<char>)
    ensures
        form_fields_ok(name, pin) == (login_check(name, pin) is Some),
        registration_check(name, pin) is Ok ==> form_fields_ok(name, pin),
{
}

/// A token sent as `Bearer <token>` is the token the worker reads back.
pub proof fn bearer_round_trip(token: Seq<char>)
    ensures
        bearer_of(Some("Bearer "@ + token)) == Some(token),
{
    reveal_strlit("Bearer ");
    let h = "Bearer "@ + token;
    assert(h.take(7) =~= "Bearer "@);
    assert(h.skip(7) =~= token);
}

} // verus!
