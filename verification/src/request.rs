//! The request for one unit of verification work, and what makes two
//! requests the same work.

use vstd::prelude::*;
use crate::text::{copy_list, copy_optional, same_list, same_optional};

verus! {

/// The value of a request: every field as plain text, flags and lists.
pub struct RequestView {
    pub repository: Seq<char>,
    pub commit_hash: Option<Seq<char>>,
    pub program_id: Seq<char>,
    pub lib_name: Option<Seq<char>>,
    pub bpf_flag: Option<bool>,
    pub base_image: Option<Seq<char>>,
    pub mount_path: Option<Seq<char>>,
    pub cargo_args: Option<Seq<Seq<char>>>,
}

/// A caller's description of a build to verify.
#[derive(Debug, PartialEq, Eq)]
pub struct VerificationRequest {
    /// Where the source lives.
    pub repository: String,
    /// The commit to build, when the caller pins one.
    pub commit_hash: Option<String>,
    /// The on-chain program the build is checked against.
    pub program_id: String,
    /// The library to build inside the repository.
    pub lib_name: Option<String>,
    /// Whether to build with the BPF toolchain.
    pub bpf_flag: Option<bool>,
    /// The image the build runs in.
    pub base_image: Option<String>,
    /// Where the repository is mounted inside the build environment.
    pub mount_path: Option<String>,
    /// Extra arguments handed to the build.
    pub cargo_args: Option<Vec<String>>,
}

impl View for VerificationRequest {
    type V = RequestView;

    open spec fn view(&self) -> RequestView {
        RequestView {
            repository: self.repository@,
            commit_hash: self.commit_hash.deep_view(),
            program_id: self.program_id@,
            lib_name: self.lib_name.deep_view(),
            bpf_flag: self.bpf_flag,
            base_image: self.base_image.deep_view(),
            mount_path: self.mount_path.deep_view(),
            cargo_args: self.cargo_args.deep_view(),
        }
    }
}

impl RequestView {
    /// A request must name a repository and a program.
    pub open spec fn well_formed(self) -> bool {
        self.repository.len() > 0 && self.program_id.len() > 0
    }

    /// The build flag in effect: absent means off.
    pub open spec fn bpf_enabled(self) -> bool {
        self.bpf_flag == Some(true)
    }

    /// The reference shown to callers: the repository, qualified by the
    /// commit when one was given.
    pub open spec fn repo_reference(self) -> Seq<char> {
        match self.commit_hash {
            Some(hash) => self.repository + "/commit/"@ + hash,
            None => self.repository,
        }
    }
}

impl Clone for VerificationRequest {
    fn clone(&self) -> (copy: Self)
        ensures
            copy@ == self@,
    {
        let cargo_args = match &self.cargo_args {
            Some(args) => Some(copy_list(args)),
            None => None,
        };
        VerificationRequest {
            repository: self.repository.clone(),
            commit_hash: copy_optional(&self.commit_hash),
            program_id: self.program_id.clone(),
            lib_name: copy_optional(&self.lib_name),
            bpf_flag: self.bpf_flag,
            base_image: copy_optional(&self.base_image),
            mount_path: copy_optional(&self.mount_path),
            cargo_args,
        }
    }
}

impl VerificationRequest {
    /// Tells whether the request names a repository and a program.
    pub fn is_well_formed(&self) -> (ok: bool)
        ensures
            ok == self@.well_formed(),
    {
        !self.repository.as_str().is_empty() && !self.program_id.as_str().is_empty()
    }

    /// Two requests are the same work exactly when every field is equal.
    pub fn same_work(&self, other: &VerificationRequest) -> (same: bool)
        ensures
            same == (self@ == other@),
    {
        let same_args = match (&self.cargo_args, &other.cargo_args) {
            (Some(a), Some(b)) => same_list(a, b),
            (None, None) => true,
            _ => false,
        };
        let same_flag = match (self.bpf_flag, other.bpf_flag) {
            (Some(a), Some(b)) => a == b,
            (None, None) => true,
            _ => false,
        };
        self.repository == other.repository
            && same_optional(&self.commit_hash, &other.commit_hash)
            && self.program_id == other.program_id
            && same_optional(&self.lib_name, &other.lib_name)
            && same_flag
            && same_optional(&self.base_image, &other.base_image)
            && same_optional(&self.mount_path, &other.mount_path)
            && same_args
    }

    /// The build flag in effect: absent means off.
    pub fn bpf_enabled(&self) -> (on: bool)
        ensures
            on == self@.bpf_enabled(),
    {
        match self.bpf_flag {
            Some(flag) => flag,
            None => false,
        }
    }

    /// The reference shown to callers: `<repository>/commit/<hash>` when a
    /// commit was given, else the bare repository.
    pub fn repo_reference(&self) -> (reference: String)
        ensures
            reference@ == self@.repo_reference(),
    {
        match &self.commit_hash {
            Some(hash) => self.repository.clone().concat("/commit/").concat(hash.as_str()),
            None => self.repository.clone(),
        }
    }
}

} // verus!
