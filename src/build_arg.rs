//! `KEY=VALUE` environment overrides ("build args").
use vstd::prelude::*;

verus! {

/// `key` and `value` are the parts of `item` around its first `=`.
pub open spec fn is_split_of(item: Seq<char>, key: Seq<char>, value: Seq<char>) -> bool {
    &&& !key.contains('=')
    &&& item == key + seq!['='] + value
}

/// An override has a split into key and value exactly when it holds a `=`.
pub proof fn lemma_split_exists_iff_separator(item: Seq<char>)
    ensures
        item.contains('=') <==> exists|key: Seq<char>, value: Seq<char>| is_split_of(item, key, value),
{
    if item.contains('=') {
        let first = choose|i: int| 0 <= i < item.len() && item[i] == '=' && forall|j: int|
            0 <= j < i ==> item[j] != '=';
        assert(exists|i: int| 0 <= i < item.len() && item[i] == '=' && forall|j: int|
            0 <= j < i ==> item[j] != '=') by {
            lemma_first_separator(item, item.len() as int);
        }
        let key = item.take(first);
        let value = item.skip(first + 1);
        assert(item =~= key + seq!['='] + value);
        assert(!key.contains('=')) by {
            assert forall|j: int| 0 <= j < key.len() implies key[j] != '=' by {
                assert(key[j] == item[j]);
            }
        }
        assert(is_split_of(item, key, value));
    }
    if exists|key: Seq<char>, value: Seq<char>| is_split_of(item, key, value) {
        let (key, value) = choose|key: Seq<char>, value: Seq<char>| is_split_of(item, key, value);
        assert(item[key.len() as int] == '=');
    }
}

/// Within its first `end` characters, a sequence that holds a `=` there has a first one.
proof fn lemma_first_separator(item: Seq<char>, end: int)
    requires
        0 <= end <= item.len(),
        exists|i: int| 0 <= i < end && item[i] == '=',
    ensures
        exists|i: int| 0 <= i < end && item[i] == '=' && forall|j: int| 0 <= j < i ==> item[j] != '=',
    decreases end,
{
    if exists|i: int| 0 <= i < end - 1 && item[i] == '=' {
        lemma_first_separator(item, end - 1);
    } else {
        assert(item[end - 1] == '=');
        assert(forall|j: int| 0 <= j < end - 1 ==> item[j] != '=');
    }
}

/// An override splits into exactly one key and one value: two splits of the same
/// override agree.
pub proof fn lemma_split_unique(item: Seq<char>, k1: Seq<char>, v1: Seq<char>, k2: Seq<char>, v2: Seq<char>)
    requires
        is_split_of(item, k1, v1),
        is_split_of(item, k2, v2),
    ensures
        k1 == k2,
        v1 == v2,
{
    if k1.len() < k2.len() {
        assert(item[k1.len() as int] == '=');
        assert(k2[k1.len() as int] == item[k1.len() as int]);
    } else if k2.len() < k1.len() {
        assert(item[k2.len() as int] == '=');
        assert(k1[k2.len() as int] == item[k2.len() as int]);
    } else {
        assert(k1 =~= item.take(k1.len() as int));
        assert(k2 =~= item.take(k2.len() as int));
        assert(v1 =~= item.skip(k1.len() as int + 1));
        assert(v2 =~= item.skip(k2.len() as int + 1));
    }
}

/// An override that holds no `=` separator.
pub struct InvalidBuildArg {
    pub item: String,
}

impl InvalidBuildArg {
    /// The message that reports the override.
    pub fn message(&self) -> (r: String)
        ensures
            r@ == "Invalid build-arg without `=`: `"@ + self.item@ + "`"@,
    {
        let mut m = String::from_str("Invalid build-arg without `=`: `");
        m.append(self.item.as_str());
        m.append("`");
        m
    }
}

/// Splits one override on its first `=` into key and value; `None` when it holds no `=`.
pub fn split_build_arg(item: &str) -> (r: Option<(String, String)>)
    ensures
        r is None <==> !item@.contains('='),
        r matches Some((key, value)) ==> is_split_of(item@, key@, value@),
{
    let n = item.unicode_len();
    let mut i: usize = 0;
    while i < n
        invariant
            n == item@.len(),
            i <= n,
            forall|j: int| 0 <= j < i ==> item@[j] != '=',
        decreases n - i,
    {
        if item.get_char(i) == '=' {
            let key = String::from_str(item.substring_char(0, i));
            let value = String::from_str(item.substring_char(i + 1, n));
            assert(item@ =~= key@ + seq!['='] + value@);
            assert(!key@.contains('=')) by {
                assert forall|j: int| 0 <= j < key@.len() implies key@[j] != '=' by {
                    assert(key@[j] == item@[j]);
                }
            }
            assert(item@.contains('=')) by {
                assert(item@[i as int] == '=');
            }
            return Some((key, value));
        }
        i = i + 1;
    }
    None
}

/// Splits every override of `build_arg`, in order. The first override without `=`
/// is returned as the error.
pub fn parse_build_args(build_arg: &Vec<String>) -> (r: Result<Vec<(String, String)>, InvalidBuildArg>)
    ensures
        r is Ok <==> forall|i: int| 0 <= i < build_arg@.len() ==> build_arg@[i]@.contains('='),
        r matches Ok(pairs) ==> {
            &&& pairs@.len() == build_arg@.len()
            &&& forall|i: int|
                0 <= i < pairs@.len() ==> #[trigger] is_split_of(
                    build_arg@[i]@,
                    pairs@[i].0@,
                    pairs@[i].1@,
                )
        },
        r matches Err(e) ==> exists|i: int|
            0 <= i < build_arg@.len() && !build_arg@[i]@.contains('=') && e.item@ == build_arg@[i]@
                && forall|j: int| 0 <= j < i ==> build_arg@[j]@.contains('='),
{
    let mut pairs: Vec<(String, String)> = Vec::new();
    let mut i: usize = 0;
    while i < build_arg.len()
        invariant
            i <= build_arg@.len(),
            pairs@.len() == i,
            forall|j: int| 0 <= j < i ==> build_arg@[j]@.contains('='),
            forall|j: int|
                0 <= j < i ==> #[trigger] is_split_of(build_arg@[j]@, pairs@[j].0@, pairs@[j].1@),
        decreases build_arg@.len() - i,
    {
        let item = &build_arg[i];
        match split_build_arg(item.as_str()) {
            Some(pair) => {
                pairs.push(pair);
            },
            None => {
                return Err(InvalidBuildArg { item: item.clone() });
            },
        }
        i = i + 1;
    }
    Ok(pairs)
}

} // verus!
