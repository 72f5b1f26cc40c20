use crate::text::concat2;
use vstd::prelude::*;

verus! {

/// Where `fuzix test` installs a built binary on the disk image: `/bin/`
/// followed by the binary's file name, or `/bin/app` when it has none.
pub open spec fn install_destination_spec(binary_name: Option<Seq<char>>) -> Seq<char> {
    "/bin/"@ + match binary_name {
        Some(n) => n,
        None => "app"@,
    }
}

/// See [`install_destination_spec`].
pub fn install_destination(binary_name: Option<String>) -> (r: String)
    ensures
        r@ == install_destination_spec(crate::paths::opt_view(binary_name)),
{
    match binary_name {
        Some(n) => {
            let r = concat2("/bin/", n.as_str());
            assert(crate::paths::opt_view(Some(n)) == Some(n@));
            r
        },
        None => concat2("/bin/", "app"),
    }
}

/// Where `fuzix test` installs the binary built at `binary` (see
/// [`install_destination_spec`]), its file name as `Path::file_name` gives it.
pub fn install_path(binary: &str) -> (r: String)
    ensures
        r@ == install_destination_spec(crate::paths::path_file_name(binary@)),
{
    install_destination(crate::paths::file_name_of(binary))
}

/// The mode a binary installed by `fuzix test` gets.
pub fn install_mode() -> (r: String)
    ensures
        r@ == "755"@,
{
    String::from_str("755")
}

} // verus!
