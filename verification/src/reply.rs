//! What a command sends back: text, rich embeds and a file, as plain values.
//! The caller turns them into the chat platform's own messages.

use vstd::prelude::*;

verus! {

/// One titled line of an embed.
#[derive(Clone, Debug, PartialEq, Eq)]
pub struct EmbedField {
    pub name: String,
    pub value: String,
    pub inline: bool,
}

/// The view of an [`EmbedField`].
pub struct EmbedFieldView {
    pub name: Seq<char>,
    pub value: Seq<char>,
    pub inline: bool,
}

impl DeepView for EmbedField {
    type V = EmbedFieldView;

    open spec fn deep_view(&self) -> EmbedFieldView {
        EmbedFieldView { name: self.name@, value: self.value@, inline: self.inline }
    }
}

/// A rich embed. A part that is `None` is left out of the message.
#[derive(Clone, Debug, PartialEq, Eq)]
pub struct Embed {
    pub title: Option<String>,
    pub description: Option<String>,
    /// The author line: a name and the address of its icon.
    pub author: Option<(String, String)>,
    /// The address of the small picture.
    pub thumbnail: Option<String>,
    /// The name of the attached file that is shown as the picture.
    pub image: Option<String>,
    /// Red, green and blue.
    pub color: Option<(u8, u8, u8)>,
    /// The footer: a text and the address of its icon.
    pub footer: Option<(String, String)>,
    pub fields: Vec<EmbedField>,
}

/// The view of an [`Embed`].
pub struct EmbedView {
    pub title: Option<Seq<char>>,
    pub description: Option<Seq<char>>,
    pub author: Option<(Seq<char>, Seq<char>)>,
    pub thumbnail: Option<Seq<char>>,
    pub image: Option<Seq<char>>,
    pub color: Option<(u8, u8, u8)>,
    pub footer: Option<(Seq<char>, Seq<char>)>,
    pub fields: Seq<EmbedFieldView>,
}

impl DeepView for Embed {
    type V = EmbedView;

    open spec fn deep_view(&self) -> EmbedView {
        EmbedView {
            title: self.title.deep_view(),
            description: self.description.deep_view(),
            author: self.author.deep_view(),
            thumbnail: self.thumbnail.deep_view(),
            image: self.image.deep_view(),
            color: self.color,
            footer: self.footer.deep_view(),
            fields: self.fields.deep_view(),
        }
    }
}

impl EmbedView {
    /// The embed with nothing in it.
    pub open spec fn empty() -> EmbedView {
        EmbedView {
            title: None,
            description: None,
            author: None,
            thumbnail: None,
            image: None,
            color: None,
            footer: None,
            fields: Seq::empty(),
        }
    }
}

impl Embed {
    /// An embed with nothing in it.
    pub fn new() -> (embed: Self)
        ensures
            embed.deep_view() == EmbedView::empty(),
    {
        let embed = Embed {
            title: None,
            description: None,
            author: None,
            thumbnail: None,
            image: None,
            color: None,
            footer: None,
            fields: Vec::new(),
        };
        assert(embed.fields.deep_view() =~= Seq::empty());
        embed
    }

    /// Adds a line that is not set beside its neighbours.
    pub fn field(self, name: &str, value: &str) -> (embed: Self)
        ensures
            embed.deep_view() == (EmbedView {
                fields: self.deep_view().fields.push(
                    EmbedFieldView { name: name@, value: value@, inline: false },
                ),
                ..self.deep_view()
            }),
    {
        let ghost before = self.fields.deep_view();
        let mut embed = self;
        embed.fields.push(EmbedField { name: name.to_owned(), value: value.to_owned(), inline: false });
        assert(embed.fields.deep_view() =~= before.push(
            EmbedFieldView { name: name@, value: value@, inline: false },
        ));
        embed
    }
}

/// A file to send along: where it lies and the name it is sent under.
#[derive(Clone, Debug, PartialEq, Eq)]
pub struct Attachment {
    pub path: String,
    pub name: String,
}

/// The view of an [`Attachment`].
pub struct AttachmentView {
    pub path: Seq<char>,
    pub name: Seq<char>,
}

impl DeepView for Attachment {
    type V = AttachmentView;

    open spec fn deep_view(&self) -> AttachmentView {
        AttachmentView { path: self.path@, name: self.name@ }
    }
}

/// What a handler answers with: text, embeds, a file, or any of them
/// together.
#[derive(Clone, Debug, PartialEq, Eq)]
pub struct ReplyPayload {
    pub content: Option<String>,
    pub embeds: Vec<Embed>,
    pub attachment: Option<Attachment>,
}

/// The view of a [`ReplyPayload`].
pub struct ReplyPayloadView {
    pub content: Option<Seq<char>>,
    pub embeds: Seq<EmbedView>,
    pub attachment: Option<AttachmentView>,
}

impl DeepView for ReplyPayload {
    type V = ReplyPayloadView;

    open spec fn deep_view(&self) -> ReplyPayloadView {
        ReplyPayloadView {
            content: self.content.deep_view(),
            embeds: self.embeds.deep_view(),
            attachment: self.attachment.deep_view(),
        }
    }
}

impl ReplyPayloadView {
    /// The payload that holds a text and nothing else.
    pub open spec fn text(content: Seq<char>) -> ReplyPayloadView {
        ReplyPayloadView { content: Some(content), embeds: Seq::empty(), attachment: None }
    }

    /// The payload that holds one embed and nothing else.
    pub open spec fn embed(embed: EmbedView) -> ReplyPayloadView {
        ReplyPayloadView { content: None, embeds: seq![embed], attachment: None }
    }
}

impl ReplyPayload {
    /// A payload of text alone.
    pub fn text(content: String) -> (payload: Self)
        ensures
            payload.deep_view() == ReplyPayloadView::text(content@),
    {
        let payload = ReplyPayload { content: Some(content), embeds: Vec::new(), attachment: None };
        assert(payload.embeds.deep_view() =~= Seq::empty());
        payload
    }

    /// A payload of one embed alone.
    pub fn embed(embed: Embed) -> (payload: Self)
        ensures
            payload.deep_view() == ReplyPayloadView::embed(embed.deep_view()),
    {
        let ghost view = embed.deep_view();
        let mut embeds: Vec<Embed> = Vec::new();
        embeds.push(embed);
        let payload = ReplyPayload { content: None, embeds, attachment: None };
        assert(payload.embeds.deep_view() =~= seq![view]);
        payload
    }
}

} // verus!
