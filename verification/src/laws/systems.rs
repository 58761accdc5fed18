//! Promises about the recognition of operating systems.

use crate::decimal;
use crate::detection::{
    os_args, os_by_banner, os_by_keyword, os_class_text, os_keywords, os_of, os_recognised,
    os_recognised_in_output, os_recognised_in_text, OsView,
};
use crate::external::nmap::{cleaned, os_elements, os_in, os_in_text, port_list};
use crate::external::OutputView;
use crate::laws::documents::{
    has_attribute, is_child, is_first_child, lacks_attribute, lacks_child, lemma_flat_map_contains,
    theorem_attribute, theorem_first_child, theorem_is_child,
};
use crate::laws::texts::{lemma_occurs, stands_at, stands_in};
use crate::scanner::PortView;
use crate::text;
use crate::xml::{parsed, DocumentView};
use vstd::prelude::*;

verus! {

/// The words that give a system away, each with the system and the
/// distribution, those that count more first.
pub open spec fn telling_words() -> Seq<(Seq<char>, Seq<char>, Seq<char>)> {
    seq![
        ("Ubuntu"@, "Linux"@, "Ubuntu"@),
        ("Debian"@, "Linux"@, "Debian"@),
        ("CentOS"@, "Linux"@, "CentOS"@),
        ("Red Hat"@, "Linux"@, "RHEL"@),
        ("FreeBSD"@, "FreeBSD"@, ""@),
        ("Windows"@, "Windows"@, "Windows"@),
        ("Microsoft"@, "Windows"@, "Windows"@),
        ("macOS"@, "macOS"@, ""@),
        ("Darwin"@, "macOS"@, ""@),
        ("SUSE"@, "Linux"@, "SUSE"@),
        ("Fedora"@, "Linux"@, "Fedora"@),
        ("Arch"@, "Linux"@, "Arch"@),
        ("Alpine"@, "Linux"@, "Alpine"@),
    ]
}

/// What a service says of itself, in one text.
pub open spec fn says(p: PortView) -> Seq<char> {
    p.service + " "@ + p.product + " "@ + p.version
}

proof fn lemma_keyword_at(text: Seq<char>, words: Seq<(Seq<char>, Seq<char>, Seq<char>)>, k: int)
    requires
        0 <= k < words.len(),
        stands_in(text, words[k].0),
        forall|j: int| 0 <= j < k ==> !stands_in(text, (#[trigger] words[j]).0),
    ensures
        os_by_keyword(text, words) == Some(
            OsView {
                name: words[k].1,
                distro: words[k].2,
                confidence_percent: 85,
                source: "service_banner"@,
            },
        ),
    decreases words.len(),
{
    lemma_occurs(text, words[0].0);
    if k > 0 {
        let rest = words.skip(1);
        assert(!stands_in(text, words[0].0));
        assert forall|j: int| 0 <= j < k - 1 implies !stands_in(
            text,
            (#[trigger] rest[j]).0,
        ) by {
            assert(!stands_in(text, words[j + 1].0));
        }
        lemma_keyword_at(text, rest, k - 1);
    }
}

proof fn lemma_keyword_none(text: Seq<char>, words: Seq<(Seq<char>, Seq<char>, Seq<char>)>)
    requires
        forall|j: int| 0 <= j < words.len() ==> !stands_in(text, (#[trigger] words[j]).0),
    ensures
        os_by_keyword(text, words) is None,
    decreases words.len(),
{
    if words.len() > 0 {
        lemma_occurs(text, words[0].0);
        let rest = words.skip(1);
        assert forall|j: int| 0 <= j < rest.len() implies !stands_in(
            text,
            (#[trigger] rest[j]).0,
        ) by {
            assert(!stands_in(text, words[j + 1].0));
        }
        lemma_keyword_none(text, rest);
    }
}

/// A service gives the system away by the first of the words that stands in its
/// name, product and version, taken as one text.
pub proof fn theorem_telling_word(service: PortView, k: int)
    requires
        0 <= k < telling_words().len(),
        stands_in(says(service), telling_words()[k].0),
        forall|j: int| 0 <= j < k ==> !stands_in(says(service), (#[trigger] telling_words()[j]).0),
    ensures
        os_by_banner(seq![service]) == Some(
            OsView {
                name: telling_words()[k].1,
                distro: telling_words()[k].2,
                confidence_percent: 85,
                source: "service_banner"@,
            },
        ),
{
    assert(os_keywords() =~= telling_words());
    lemma_keyword_at(says(service), telling_words(), k);
}

/// A service in which none of the words stands gives nothing away.
pub proof fn theorem_no_telling_word(service: PortView)
    requires
        forall|j: int|
            0 <= j < telling_words().len() ==> !stands_in(
                says(service),
                (#[trigger] telling_words()[j]).0,
            ),
    ensures
        os_by_banner(seq![service]) is None,
        os_by_banner(Seq::empty()) is None,
{
    assert(os_keywords() =~= telling_words());
    lemma_keyword_none(says(service), telling_words());
    assert(seq![service].skip(1) =~= Seq::empty());
}

/// The first service that gives a system away decides, wherever it stands.
pub proof fn theorem_first_telling_service(a: Seq<PortView>, b: Seq<PortView>)
    ensures
        os_by_banner(a + b) == match os_by_banner(a) {
            Some(os) => Some(os),
            None => os_by_banner(b),
        },
    decreases a.len(),
{
    if a.len() == 0 {
        assert(a + b =~= b);
    } else {
        theorem_first_telling_service(a.skip(1), b);
        assert((a + b).skip(1) =~= a.skip(1) + b);
    }
}

/// One of the words in the name, in the product or in the version of any of the
/// services, each for itself, is enough.
pub proof fn theorem_word_in_a_field(services: Seq<PortView>, i: int, k: int)
    requires
        0 <= i < services.len(),
        0 <= k < telling_words().len(),
        stands_in(services[i].service, telling_words()[k].0) || stands_in(
            services[i].product,
            telling_words()[k].0,
        ) || stands_in(services[i].version, telling_words()[k].0),
    ensures
        os_by_banner(services) is Some,
    decreases k,
{
    let p = services[i];
    let word = telling_words()[k].0;
    let all = says(p);
    assert(stands_in(all, word)) by {
        if stands_in(p.service, word) {
            let at = choose|at: int| stands_at(p.service, word, at);
            assert(all.subrange(at, at + word.len()) =~= p.service.subrange(at, at + word.len()));
            assert(stands_at(all, word, at));
        } else if stands_in(p.product, word) {
            let at = choose|at: int| stands_at(p.product, word, at);
            let shift = at + p.service.len() + " "@.len();
            assert(all.subrange(shift, shift + word.len()) =~= p.product.subrange(
                at,
                at + word.len(),
            ));
            assert(stands_at(all, word, shift));
        } else {
            let at = choose|at: int| stands_at(p.version, word, at);
            let shift = at + p.service.len() + " "@.len() + p.product.len() + " "@.len();
            assert(all.subrange(shift, shift + word.len()) =~= p.version.subrange(
                at,
                at + word.len(),
            ));
            assert(stands_at(all, word, shift));
        }
    }
    assert(os_keywords() =~= telling_words());
    lemma_occurs(all, word);
    assert(text::occurs_in(crate::detection::banner(p), os_keywords()[k].0));
    assert(crate::detection::tells(crate::detection::banner(p), os_keywords()));
    crate::detection::theorem_os_by_banner(services);
}

/// Only one of the words gives a system away, and the system is the one behind
/// the word.
pub proof fn theorem_system_is_told(services: Seq<PortView>)
    ensures
        os_by_banner(services) matches Some(os) ==> {
            &&& os.confidence_percent == 85
            &&& os.source == "service_banner"@
            &&& exists|i: int, k: int|
                #![trigger services[i], telling_words()[k]]
                0 <= i < services.len() && 0 <= k < telling_words().len() && stands_in(
                    says(services[i]),
                    telling_words()[k].0,
                ) && os.name == telling_words()[k].1 && os.distro == telling_words()[k].2
        },
    decreases services.len(),
{
    if services.len() > 0 {
        let p = services[0];
        assert(os_keywords() =~= telling_words());
        match os_by_keyword(says(p), telling_words()) {
            Some(os) => {
                lemma_keyword_told(says(p), telling_words());
                let k = choose|k: int|
                    0 <= k < telling_words().len() && stands_in(
                        says(p),
                        (#[trigger] telling_words()[k]).0,
                    ) && os.name == telling_words()[k].1 && os.distro == telling_words()[k].2;
                assert(says(services[0]) == says(p) && telling_words()[k] == telling_words()[k]);
            },
            None => {
                let rest = services.skip(1);
                theorem_system_is_told(rest);
                if os_by_banner(rest) is Some {
                    let os = os_by_banner(rest)->0;
                    let (i, k) = choose|i: int, k: int|
                        #![trigger rest[i], telling_words()[k]]
                        0 <= i < rest.len() && 0 <= k < telling_words().len() && stands_in(
                            says(rest[i]),
                            telling_words()[k].0,
                        ) && os.name == telling_words()[k].1 && os.distro == telling_words()[k].2;
                    assert(services[i + 1] == rest[i] && telling_words()[k]
                        == telling_words()[k]);
                }
            },
        }
    }
}

proof fn lemma_keyword_told(text: Seq<char>, words: Seq<(Seq<char>, Seq<char>, Seq<char>)>)
    ensures
        os_by_keyword(text, words) matches Some(os) ==> os.confidence_percent == 85 && os.source
            == "service_banner"@ && exists|k: int|
            0 <= k < words.len() && stands_in(text, (#[trigger] words[k]).0) && os.name
                == words[k].1 && os.distro == words[k].2,
    decreases words.len(),
{
    if words.len() > 0 {
        lemma_occurs(text, words[0].0);
        let rest = words.skip(1);
        lemma_keyword_told(text, rest);
        if os_by_keyword(text, words) is Some {
            let os = os_by_keyword(text, words)->0;
            if stands_in(text, words[0].0) {
                assert(os.name == words[0].1);
            } else {
                let k = choose|k: int|
                    0 <= k < rest.len() && stands_in(text, (#[trigger] rest[k]).0) && os.name
                        == rest[k].1 && os.distro == rest[k].2;
                assert(words[k + 1] == rest[k]);
            }
        }
    }
}

/// What nmap recognised counts where there are services; else the banners do.
pub proof fn theorem_which_system(services: Seq<PortView>, nmap_os: Option<OsView>)
    ensures
        services.len() > 0 && nmap_os is Some ==> os_of(services, nmap_os) == nmap_os,
        nmap_os is None ==> os_of(services, nmap_os) == os_by_banner(services),
        services.len() == 0 ==> os_of(services, nmap_os) is None,
{
}

/// The arguments of a detection, each in its place.
pub proof fn theorem_os_arguments(target: Seq<char>, ports: Seq<u16>)
    ensures
        ({
            let args = os_args(target, ports);
            &&& args.len() == 12
            &&& args[0] == "-O"@
            &&& args[1] == "-sV"@
            &&& args[2] == "--version-intensity"@
            &&& decimal::unsigned(args[3]) == Some(1nat)
            &&& args[4] == "-p"@
            &&& args[5] == port_list(ports)
            &&& args[6] == "-oX"@
            &&& args[7] == "-"@
            &&& args[8] == "--open"@
            &&& args[9] == "--disable-arp-ping"@
            &&& args[10] == "-Pn"@
            &&& args[11] == target
        }),
{
    decimal::theorem_digits_read_back(1, 1);
}

/// The elements of operating systems are the children of that name of the hosts
/// under the root, host by host.
pub proof fn theorem_os_elements(doc: DocumentView, node: usize)
    ensures
        os_elements(doc).contains(node) <==> exists|host: usize|
            is_child(doc, doc.root, "host"@, host) && #[trigger] is_child(
                doc,
                host,
                "osmatch"@,
                node,
            ),
        os_elements(doc) == doc.children_named(doc.root, "host"@).flat_map(
            |host: usize| doc.children_named(host, "osmatch"@),
        ),
{
    let hosts = doc.children_named(doc.root, "host"@);
    let f = |host: usize| doc.children_named(host, "osmatch"@);
    assert(os_elements(doc) == hosts.flat_map(f));
    lemma_flat_map_contains(hosts, f, node);
    if os_elements(doc).contains(node) {
        let host = choose|host: usize| #[trigger] hosts.contains(host) && f(host).contains(node);
        theorem_is_child(doc, doc.root, "host"@, host);
        theorem_is_child(doc, host, "osmatch"@, node);
    }
    assert forall|host: usize|
        is_child(doc, doc.root, "host"@, host) && #[trigger] is_child(
            doc,
            host,
            "osmatch"@,
            node,
        ) implies os_elements(doc).contains(node) by {
        theorem_is_child(doc, doc.root, "host"@, host);
        theorem_is_child(doc, host, "osmatch"@, node);
        assert(f(host).contains(node));
    }
}

/// A text so far, and a further word behind a space.
pub open spec fn extended(text: Option<Seq<char>>, word: Option<Seq<char>>) -> Option<Seq<char>> {
    match (text, word) {
        (Some(t), Some(w)) => Some(t + " "@ + w),
        (Some(t), None) => Some(t),
        (None, w) => w,
    }
}

/// The value that an attribute has, or none.
pub open spec fn is_value(
    doc: DocumentView,
    node: usize,
    name: Seq<char>,
    value: Option<Seq<char>>,
) -> bool {
    match value {
        Some(v) => has_attribute(doc, node, name, v),
        None => lacks_attribute(doc, node, name),
    }
}

/// The class of a system is made of vendor, family and generation, as far as
/// they are there, with spaces between them.
pub proof fn theorem_os_class_text(
    doc: DocumentView,
    node: usize,
    class: usize,
    vendor: Option<Seq<char>>,
    family: Option<Seq<char>>,
    generation: Option<Seq<char>>,
)
    requires
        is_first_child(doc, node, "osclass"@, class),
        is_value(doc, class, "vendor"@, vendor),
        is_value(doc, class, "osfamily"@, family),
        is_value(doc, class, "osgen"@, generation),
    ensures
        os_class_text(doc, node) == match extended(extended(vendor, family), generation) {
            Some(t) => t,
            None => Seq::empty(),
        },
{
    theorem_first_child(doc, node, "osclass"@);
    theorem_attribute(doc, class, "vendor"@);
    theorem_attribute(doc, class, "osfamily"@);
    theorem_attribute(doc, class, "osgen"@);
    reveal_with_fuel(text::joined, 4);
    let parts = crate::detection::present(vendor) + crate::detection::present(family)
        + crate::detection::present(generation);
    assert(os_class_text(doc, node) == text::joined(parts, " "@));
    if parts.len() == 3 {
        assert(parts.drop_last() =~= seq![parts[0], parts[1]]);
        assert(parts.drop_last().drop_last() =~= seq![parts[0]]);
    } else if parts.len() == 2 {
        assert(parts.drop_last() =~= seq![parts[0]]);
    }
}

/// The first element of an operating system, with a name and an accuracy of at
/// most 255, gives the system: a Windows system by its class, any other by its
/// name.
pub proof fn theorem_os_recognised(
    doc: DocumentView,
    name: Seq<char>,
    accuracy: Seq<char>,
    percent: u8,
)
    requires
        os_elements(doc).len() > 0,
        has_attribute(doc, os_elements(doc)[0], "name"@, name),
        has_attribute(doc, os_elements(doc)[0], "accuracy"@, accuracy),
        decimal::unsigned(accuracy) == Some(percent as nat),
    ensures
        os_recognised(doc) matches Some(os) && {
            let class = os_class_text(doc, os_elements(doc)[0]);
            &&& os.confidence_percent == percent
            &&& os.source == "nmap_os_detection"@
            &&& stands_in(class, "Windows"@) ==> os.name == "Windows"@ && os.distro == class
            &&& !stands_in(class, "Windows"@) ==> os.name == name && os.distro.len() == 0
        },
        lacks_child(doc, os_elements(doc)[0], "osclass"@) ==> os_class_text(
            doc,
            os_elements(doc)[0],
        ).len() == 0,
{
    let node = os_elements(doc)[0];
    theorem_attribute(doc, node, "name"@);
    theorem_attribute(doc, node, "accuracy"@);
    theorem_first_child(doc, node, "osclass"@);
    lemma_occurs(os_class_text(doc, node), "Windows"@);
}

/// Without such an element, or where its name or its accuracy is missing or no
/// number, no system is recognised.
pub proof fn theorem_os_not_recognised(doc: DocumentView, accuracy: Seq<char>)
    requires
        os_elements(doc).len() == 0 || lacks_attribute(doc, os_elements(doc)[0], "name"@)
            || lacks_attribute(doc, os_elements(doc)[0], "accuracy"@) || (has_attribute(
            doc,
            os_elements(doc)[0],
            "accuracy"@,
            accuracy,
        ) && (decimal::unsigned(accuracy) is None || decimal::unsigned(accuracy)->0 > 255)),
    ensures
        os_recognised(doc) is None,
        os_in(doc) is None,
{
    let node = os_elements(doc)[0];
    theorem_attribute(doc, node, "name"@);
    theorem_attribute(doc, node, "accuracy"@);
}

/// What is read of a system besides: name and accuracy, and a class only where
/// there is a class element.
pub proof fn theorem_os_details(
    doc: DocumentView,
    name: Seq<char>,
    accuracy: Seq<char>,
    percent: u8,
)
    requires
        os_elements(doc).len() > 0,
        has_attribute(doc, os_elements(doc)[0], "name"@, name),
        has_attribute(doc, os_elements(doc)[0], "accuracy"@, accuracy),
        decimal::unsigned(accuracy) == Some(percent as nat),
    ensures
        os_in(doc) matches Some(os) && os.name == name && os.accuracy == percent && (lacks_child(
            doc,
            os_elements(doc)[0],
            "osclass"@,
        ) ==> os.osclass is None),
{
    let node = os_elements(doc)[0];
    theorem_attribute(doc, node, "name"@);
    theorem_attribute(doc, node, "accuracy"@);
    theorem_first_child(doc, node, "osclass"@);
}

/// A class needs a vendor and a family; the generation follows where it is
/// named.
pub proof fn theorem_os_class(
    doc: DocumentView,
    class: usize,
    vendor: Seq<char>,
    family: Seq<char>,
    generation: Seq<char>,
)
    requires
        os_in(doc) is Some,
        is_first_child(doc, os_elements(doc)[0], "osclass"@, class),
    ensures
        lacks_attribute(doc, class, "vendor"@) ==> os_in(doc)->0.osclass is None,
        lacks_attribute(doc, class, "osfamily"@) ==> os_in(doc)->0.osclass is None,
        has_attribute(doc, class, "vendor"@, vendor) && has_attribute(
            doc,
            class,
            "osfamily"@,
            family,
        ) && has_attribute(doc, class, "osgen"@, generation) ==> os_in(doc)->0.osclass == Some(
            text::trimmed(vendor + " "@ + family + " "@ + generation),
        ),
        has_attribute(doc, class, "vendor"@, vendor) && has_attribute(
            doc,
            class,
            "osfamily"@,
            family,
        ) && lacks_attribute(doc, class, "osgen"@) ==> os_in(doc)->0.osclass == Some(
            text::trimmed(vendor + " "@ + family),
        ),
{
    let node = os_elements(doc)[0];
    theorem_first_child(doc, node, "osclass"@);
    theorem_attribute(doc, class, "vendor"@);
    theorem_attribute(doc, class, "osfamily"@);
    theorem_attribute(doc, class, "osgen"@);
    reveal_strlit(" ");
    let s = vendor + " "@ + family;
    assert(s + " "@ + Seq::empty() =~= s.push(' '));
    text::theorem_trimmed_end(s, ' ');
}

/// A text that is no document, and a run of nmap that failed, recognise no
/// system; else the document in the cleaned output counts, and nothing of the
/// error output.
pub proof fn theorem_os_in_output(output: OutputView, doc: DocumentView, text: Seq<char>)
    ensures
        !output.success ==> os_recognised_in_output(output) is None,
        output.success ==> os_recognised_in_output(output) == os_recognised_in_text(
            cleaned(text::utf8_lossy(output.stdout)),
        ),
        parsed(text) is Err ==> os_recognised_in_text(text) is None && os_in_text(text) is None,
        parsed(text) == Ok::<DocumentView, Seq<char>>(doc) ==> os_recognised_in_text(text)
            == os_recognised(doc) && os_in_text(text) == os_in(doc),
{
}

} // verus!
