use vstd::prelude::*;

verus! {

/// The URLs and label of the chat section.
pub struct ChatRoutes;

impl ChatRoutes {
    /// The path of the chat list.
    pub fn base_url() -> (url: &'static str)
        ensures
            url@ == "/chats"@,
    {
        "/chats"
    }

    /// The path of one chat, `/chats/{id}`.
    pub fn detail_url(id: &str) -> (url: String)
        ensures
            url@ == "/chats/"@ + id@,
    {
        let mut url = String::from_str("/chats/");
        url.append(id);
        url
    }

    /// The navigation label of the chat section.
    pub fn label() -> (text: &'static str)
        ensures
            text@ == "Chat"@,
    {
        "Chat"
    }
}

/// A chat's detail path is the chat list path, a slash, and the chat's id.
pub proof fn lemma_detail_url_extends_base(id: Seq<char>)
    ensures
        "/chats/"@ + id == "/chats"@ + "/"@ + id,
{
    reveal_strlit("/chats/");
    reveal_strlit("/chats");
    reveal_strlit("/");
    assert("/chats/"@ =~= "/chats"@ + "/"@);
    assert(("/chats"@ + "/"@) + id =~= "/chats"@ + ("/"@ + id));
}

/// Distinct chat ids give distinct detail paths.
pub proof fn lemma_detail_url_injective(a: Seq<char>, b: Seq<char>)
    requires
        "/chats/"@ + a == "/chats/"@ + b,
    ensures
        a == b,
{
    let p = "/chats/"@;
    assert(a =~= (p + a).subrange(p.len() as int, (p + a).len() as int));
    assert(b =~= (p + b).subrange(p.len() as int, (p + b).len() as int));
}

} // verus!
